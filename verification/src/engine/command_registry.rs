//! The commands that the application offers, filed under their identifiers.

use vstd::prelude::*;

verus! {

/// The part of the application that a command belongs to.
#[derive(Clone, Copy, Debug, PartialEq, Eq, Structural)]
pub enum CommandCategory {
    Gpu,
    Theme,
    Voice,
    Wizard,
    System,
}

/// A command as the command palette shows it.
#[derive(Debug)]
pub struct Command {
    pub name: String,
    pub description: String,
    pub category: CommandCategory,
}

/// Mathematical value of a [`Command`].
pub struct CommandView {
    pub name: Seq<char>,
    pub description: Seq<char>,
    pub category: CommandCategory,
}

impl View for Command {
    type V = CommandView;

    open spec fn view(&self) -> CommandView {
        CommandView { name: self.name@, description: self.description@, category: self.category }
    }
}

impl Clone for Command {
    fn clone(&self) -> (copy: Self)
        ensures
            copy@ == self@,
    {
        Command {
            name: self.name.clone(),
            description: self.description.clone(),
            category: self.category,
        }
    }
}

/// A command under its identifier.
pub type Entry = (Seq<char>, CommandView);

/// The identifiers of `entries`, in their order.
pub open spec fn entry_ids(entries: Seq<Entry>) -> Seq<Seq<char>> {
    Seq::new(entries.len(), |i: int| entries[i].0)
}

/// The command filed under `id`, if there is one.
pub open spec fn lookup(entries: Seq<Entry>, id: Seq<char>) -> Option<CommandView> {
    if entry_ids(entries).contains(id) {
        Some(entries[entry_ids(entries).index_of(id)].1)
    } else {
        None
    }
}

/// The entries after `command` was filed under `id`: in the place of the
/// command that was filed there before, or else behind all others.
pub open spec fn registered(entries: Seq<Entry>, id: Seq<char>, command: CommandView) -> Seq<Entry> {
    if entry_ids(entries).contains(id) {
        entries.update(entry_ids(entries).index_of(id), (id, command))
    } else {
        entries.push((id, command))
    }
}

/// The entries of `category`, in their order.
pub open spec fn in_category(entries: Seq<Entry>, category: CommandCategory) -> Seq<Entry> {
    entries.filter(|entry: Entry| entry.1.category == category)
}

/// One command of the default set.
pub open spec fn default_entry(
    id: &str,
    name: &str,
    description: &str,
    category: CommandCategory,
) -> Entry {
    (id@, CommandView { name: name@, description: description@, category })
}

/// The commands that every new registry holds.
pub open spec fn default_commands() -> Seq<Entry> {
    seq![
        default_entry(
            "gpu.limit.25",
            "Set GPU Limit to 25%",
            "Limit GPU usage to 25%",
            CommandCategory::Gpu,
        ),
        default_entry(
            "gpu.limit.50",
            "Set GPU Limit to 50%",
            "Limit GPU usage to 50%",
            CommandCategory::Gpu,
        ),
        default_entry(
            "gpu.limit.75",
            "Set GPU Limit to 75%",
            "Limit GPU usage to 75%",
            CommandCategory::Gpu,
        ),
        default_entry(
            "gpu.limit.100",
            "Set GPU Limit to 100%",
            "Use full GPU capacity",
            CommandCategory::Gpu,
        ),
        default_entry(
            "theme.toggle",
            "Toggle Theme",
            "Switch between light and dark theme",
            CommandCategory::Theme,
        ),
        default_entry(
            "voice.toggle",
            "Toggle Voice",
            "Enable or disable voice recognition",
            CommandCategory::Voice,
        ),
        default_entry(
            "wizard.open",
            "Open Setup Wizard",
            "Launch the initial setup wizard",
            CommandCategory::Wizard,
        ),
        default_entry("system.quit", "Quit Application", "Exit ZenTerm", CommandCategory::System),
    ]
}

/// What executing an unknown command reports.
pub open spec fn not_found_text(id: Seq<char>) -> Seq<char> {
    "Command '"@ + id + "' not found"@
}

/// The values of a listing of entries.
pub open spec fn listing_views(listing: Seq<(&String, &Command)>) -> Seq<Entry> {
    Seq::new(listing.len(), |i: int| (listing[i].0@, listing[i].1@))
}

/// The commands of the application, each under one identifier.
#[derive(Debug)]
pub struct CommandRegistry {
    commands: Vec<(String, Command)>,
}

impl View for CommandRegistry {
    type V = Seq<Entry>;

    closed spec fn view(&self) -> Seq<Entry> {
        Seq::new(self.commands@.len(), |i: int| (self.commands@[i].0@, self.commands@[i].1@))
    }
}

impl CommandRegistry {
    /// No identifier is filed twice.
    pub open spec fn wf(&self) -> bool {
        entry_ids(self@).no_duplicates()
    }

    /// A registry that holds the default commands.
    pub fn new() -> (registry: Self)
        ensures
            registry.wf(),
            registry@ == default_commands(),
    {
        let mut registry = CommandRegistry { commands: Vec::new() };
        assert(registry@ =~= Seq::<Entry>::empty());
        registry.register_default_commands();
        registry
    }

    /// Where the command `id` is filed.
    fn find(&self, id: &String) -> (found: Option<usize>)
        ensures
            match found {
                Some(i) => i < self.commands@.len() && entry_ids(self@)[i as int] == id@
                    && entry_ids(self@).contains(id@),
                None => !entry_ids(self@).contains(id@),
            },
    {
        let mut i: usize = 0;
        while i < self.commands.len()
            invariant
                i <= self.commands@.len(),
                forall|k: int| 0 <= k < i ==> entry_ids(self@)[k] != id@,
            decreases self.commands@.len() - i,
        {
            if self.commands[i].0 == *id {
                assert(entry_ids(self@)[i as int] == id@);
                return Some(i);
            }
            i += 1;
        }
        None
    }

    /// Files `command` under `id`, in the place of any command that was filed
    /// there before.
    pub fn register(&mut self, id: String, command: Command)
        requires
            old(self).wf(),
        ensures
            final(self).wf(),
            final(self)@ == registered(old(self)@, id@, command@),
    {
        let ghost ids = entry_ids(self@);
        match self.find(&id) {
            Some(i) => {
                assert(ids.index_of(id@) == i as int);
                self.commands[i] = (id, command);
                assert(self@ =~= registered(old(self)@, id@, command@));
                assert(entry_ids(self@) =~= ids);
            },
            None => {
                self.commands.push((id, command));
                assert(self@ =~= registered(old(self)@, id@, command@));
                assert(entry_ids(self@) =~= ids.push(id@));
            },
        }
    }

    /// The command filed under `id`, if there is one.
    pub fn get(&self, id: &str) -> (command: Option<&Command>)
        requires
            self.wf(),
        ensures
            match command {
                Some(c) => lookup(self@, id@) == Some(c@),
                None => lookup(self@, id@) is None,
            },
    {
        let key = id.to_owned();
        match self.find(&key) {
            Some(i) => {
                assert(entry_ids(self@).index_of(id@) == i as int);
                Some(&self.commands[i].1)
            },
            None => None,
        }
    }

    /// Every command with its identifier, in the order of their registration.
    pub fn all_commands(&self) -> (listing: Vec<(&String, &Command)>)
        ensures
            listing_views(listing@) == self@,
    {
        let mut listing: Vec<(&String, &Command)> = Vec::new();
        let mut i: usize = 0;
        while i < self.commands.len()
            invariant
                i <= self.commands@.len(),
                listing@.len() == i,
                forall|k: int| 0 <= k < i ==> listing_views(listing@)[k] == self@[k],
            decreases self.commands@.len() - i,
        {
            listing.push((&self.commands[i].0, &self.commands[i].1));
            i += 1;
        }
        assert(listing_views(listing@) =~= self@);
        listing
    }

    /// The commands of `category` with their identifiers, in the order of
    /// their registration.
    pub fn commands_by_category(&self, category: &CommandCategory) -> (listing: Vec<
        (&String, &Command),
    >)
        ensures
            listing_views(listing@) == in_category(self@, *category),
    {
        let ghost wanted = |entry: Entry| entry.1.category == *category;
        let mut listing: Vec<(&String, &Command)> = Vec::new();
        let mut i: usize = 0;
        assert(self@.take(0) =~= Seq::<Entry>::empty());
        assert(self@.take(0).filter(wanted) =~= Seq::<Entry>::empty()) by {
            reveal(Seq::filter);
        }
        while i < self.commands.len()
            invariant
                i <= self.commands@.len(),
                wanted == |entry: Entry| entry.1.category == *category,
                listing_views(listing@) == self@.take(i as int).filter(wanted),
            decreases self.commands@.len() - i,
        {
            proof {
                assert(self@.take(i as int + 1) =~= self@.take(i as int).push(self@[i as int]));
                assert(self@.take(i as int + 1).drop_last() =~= self@.take(i as int));
                reveal(Seq::filter);
            }
            let ghost before = listing_views(listing@);
            if self.commands[i].1.category == *category {
                listing.push((&self.commands[i].0, &self.commands[i].1));
                assert(listing_views(listing@) =~= before.push(self@[i as int]));
            }
            i += 1;
        }
        assert(self@.take(i as int) =~= self@);
        listing
    }

    /// Executes the command `id`. Commands have no effect of their own yet, so
    /// this reports only whether the command exists.
    pub fn execute(&self, id: &str) -> (result: Result<(), String>)
        ensures
            match result {
                Ok(_) => entry_ids(self@).contains(id@),
                Err(text) => !entry_ids(self@).contains(id@) && text@ == not_found_text(id@),
            },
    {
        let key = id.to_owned();
        match self.find(&key) {
            Some(_) => Ok(()),
            None => Err("Command '".to_string().concat(id).concat("' not found")),
        }
    }

    /// Files one command of the default set.
    fn register_default(
        &mut self,
        id: &str,
        name: &str,
        description: &str,
        category: CommandCategory,
    )
        requires
            old(self).wf(),
        ensures
            final(self).wf(),
            final(self)@ == registered(
                old(self)@,
                id@,
                default_entry(id, name, description, category).1,
            ),
    {
        self.register(
            id.to_string(),
            Command { name: name.to_string(), description: description.to_string(), category },
        );
    }

    /// Files the default commands.
    fn register_default_commands(&mut self)
        requires
            old(self)@ == Seq::<Entry>::empty(),
        ensures
            final(self).wf(),
            final(self)@ == default_commands(),
    {
        proof {
            lemma_default_ids_differ();
        }
        let ghost all = default_commands();
        assert(entry_ids(self@) =~= Seq::empty());
        self.register_default(
            "gpu.limit.25",
            "Set GPU Limit to 25%",
            "Limit GPU usage to 25%",
            CommandCategory::Gpu,
        );
        assert(self@ =~= all.take(1));
        self.register_default(
            "gpu.limit.50",
            "Set GPU Limit to 50%",
            "Limit GPU usage to 50%",
            CommandCategory::Gpu,
        );
        assert(self@ =~= all.take(2)) by {
            lemma_new_among_defaults(1);
        }
        self.register_default(
            "gpu.limit.75",
            "Set GPU Limit to 75%",
            "Limit GPU usage to 75%",
            CommandCategory::Gpu,
        );
        assert(self@ =~= all.take(3)) by {
            lemma_new_among_defaults(2);
        }
        self.register_default(
            "gpu.limit.100",
            "Set GPU Limit to 100%",
            "Use full GPU capacity",
            CommandCategory::Gpu,
        );
        assert(self@ =~= all.take(4)) by {
            lemma_new_among_defaults(3);
        }
        self.register_default(
            "theme.toggle",
            "Toggle Theme",
            "Switch between light and dark theme",
            CommandCategory::Theme,
        );
        assert(self@ =~= all.take(5)) by {
            lemma_new_among_defaults(4);
        }
        self.register_default(
            "voice.toggle",
            "Toggle Voice",
            "Enable or disable voice recognition",
            CommandCategory::Voice,
        );
        assert(self@ =~= all.take(6)) by {
            lemma_new_among_defaults(5);
        }
        self.register_default(
            "wizard.open",
            "Open Setup Wizard",
            "Launch the initial setup wizard",
            CommandCategory::Wizard,
        );
        assert(self@ =~= all.take(7)) by {
            lemma_new_among_defaults(6);
        }
        self.register_default(
            "system.quit",
            "Quit Application",
            "Exit ZenTerm",
            CommandCategory::System,
        );
        assert(self@ =~= all.take(8)) by {
            lemma_new_among_defaults(7);
        }
        assert(all.take(8) =~= all);
    }
}

/// The first character of an identifier and its eleventh, which together tell
/// the default identifiers apart.
spec fn marks(id: Seq<char>) -> (char, char) {
    (id[0], id[10])
}

/// The identifiers of the default commands differ from one another.
proof fn lemma_default_ids_differ()
    ensures
        default_commands().len() == 8,
        forall|i: int, j: int|
            0 <= i < j < 8 ==> default_commands()[i].0 != default_commands()[j].0,
{
    reveal_strlit("gpu.limit.25");
    reveal_strlit("gpu.limit.50");
    reveal_strlit("gpu.limit.75");
    reveal_strlit("gpu.limit.100");
    reveal_strlit("theme.toggle");
    reveal_strlit("voice.toggle");
    reveal_strlit("wizard.open");
    reveal_strlit("system.quit");
    let all = default_commands();
    assert(marks(all[0].0) == ('g', '2'));
    assert(marks(all[1].0) == ('g', '5'));
    assert(marks(all[2].0) == ('g', '7'));
    assert(marks(all[3].0) == ('g', '1'));
    assert(marks(all[4].0) == ('t', 'l'));
    assert(marks(all[5].0) == ('v', 'l'));
    assert(marks(all[6].0) == ('w', 'n'));
    assert(marks(all[7].0) == ('s', 't'));
}

/// Filing the default command number `count` behind the ones before it adds
/// it at the end.
proof fn lemma_new_among_defaults(count: int)
    requires
        0 <= count < 8,
    ensures
        registered(
            default_commands().take(count),
            default_commands()[count].0,
            default_commands()[count].1,
        ) =~= default_commands().take(count + 1),
{
    lemma_default_ids_differ();
    let all = default_commands();
    let ids = entry_ids(all.take(count));
    if ids.contains(all[count].0) {
        let at = ids.index_of(all[count].0);
        assert(ids[at] == all[at].0);
    }
}

} // verus!
