//! Subscriptions and the matching of event names against their patterns.
//!
//! An event name is a sequence of segments separated by dots. In a pattern the
//! segment `*` stands for exactly one segment and `**` for any number of
//! segments, none included.

use vstd::prelude::*;
use crate::text::{decimal, decimal_text, lemma_decimal_injective, same_text};

verus! {

/// The identifier of the subscription number `sequence`.
pub open spec fn subscription_id(sequence: nat) -> Seq<char> {
    "sub_"@ + decimal_text(sequence)
}

/// The segments of `text`: what stands between its dots. A text of `n` dots
/// has `n + 1` segments, some of them empty where dots touch each other or an
/// end of the text.
pub open spec fn split_segments(text: Seq<char>) -> Seq<Seq<char>>
    decreases text.len(),
{
    if text.len() == 0 {
        seq![Seq::<char>::empty()]
    } else {
        let before = split_segments(text.drop_last());
        if text.last() == '.' {
            before.push(Seq::<char>::empty())
        } else {
            before.drop_last().push(before.last().push(text.last()))
        }
    }
}

/// Whether the pattern segments `sub` match the event segments `event`,
/// segment by segment, with `*` for one segment and `**` for any number.
pub open spec fn segments_match(sub: Seq<Seq<char>>, event: Seq<Seq<char>>) -> bool
    decreases sub.len() + event.len(),
{
    if sub.len() == 0 {
        event.len() == 0
    } else if sub[0] == "**"@ {
        segments_match(sub.drop_first(), event) || (event.len() > 0 && segments_match(
            sub,
            event.drop_first(),
        ))
    } else if event.len() == 0 {
        false
    } else if sub[0] == "*"@ {
        segments_match(sub.drop_first(), event.drop_first())
    } else {
        sub[0] == event[0] && segments_match(sub.drop_first(), event.drop_first())
    }
}

/// Whether a subscription to `subscription` receives the event `event`: the
/// pattern `**` receives everything, every pattern receives the event of its
/// own name, and a pattern with a wildcard receives what its segments match.
pub open spec fn pattern_matches_spec(subscription: Seq<char>, event: Seq<char>) -> bool {
    ||| subscription == "**"@
    ||| subscription == event
    ||| (subscription.contains('*') && segments_match(
        split_segments(subscription),
        split_segments(event),
    ))
}

/// The values of a sequence of texts.
pub open spec fn text_views(texts: Seq<String>) -> Seq<Seq<char>> {
    Seq::new(texts.len(), |i: int| texts[i]@)
}

/// The registration of a handler for the events that match a pattern.
#[derive(Debug)]
pub struct Subscription {
    id: String,
    pattern: String,
}

/// Mathematical value of a [`Subscription`].
pub struct SubscriptionView {
    pub id: Seq<char>,
    pub pattern: Seq<char>,
}

impl View for Subscription {
    type V = SubscriptionView;

    closed spec fn view(&self) -> SubscriptionView {
        SubscriptionView { id: self.id@, pattern: self.pattern@ }
    }
}

impl Clone for Subscription {
    fn clone(&self) -> (copy: Self)
        ensures
            copy@ == self@,
    {
        Subscription { id: self.id.clone(), pattern: self.pattern.clone() }
    }
}

impl Subscription {
    /// The subscription number `sequence` to `pattern`. Its identifier is
    /// `sub_` followed by the number, so that subscriptions of different
    /// numbers have different identifiers.
    pub fn new(pattern: &str, sequence: usize) -> (subscription: Self)
        ensures
            subscription@.pattern == pattern@,
            subscription@.id == subscription_id(sequence as nat),
    {
        let number = decimal(sequence as u64);
        Subscription { id: "sub_".to_string().concat(number.as_str()), pattern: pattern.to_owned() }
    }

    /// The identifier of this subscription.
    pub fn id(&self) -> (id: &str)
        ensures
            id@ == self@.id,
    {
        self.id.as_str()
    }

    /// The pattern that this subscription matches.
    pub fn pattern(&self) -> (pattern: &str)
        ensures
            pattern@ == self@.pattern,
    {
        self.pattern.as_str()
    }

    /// Whether this subscription receives the event `event_pattern`.
    pub fn matches(&self, event_pattern: &str) -> (receives: bool)
        ensures
            receives == pattern_matches_spec(self@.pattern, event_pattern@),
    {
        pattern_matches(self.pattern.as_str(), event_pattern)
    }
}

/// Subscriptions of different numbers have different identifiers.
pub proof fn law_subscription_ids_differ(a: nat, b: nat)
    requires
        a != b,
    ensures
        subscription_id(a) != subscription_id(b),
{
    if subscription_id(a) == subscription_id(b) {
        let prefix = "sub_"@;
        assert(decimal_text(a) =~= subscription_id(a).skip(prefix.len() as int));
        assert(decimal_text(b) =~= subscription_id(b).skip(prefix.len() as int));
        lemma_decimal_injective(a, b);
    }
}

/// Whether `text` holds an asterisk.
fn has_wildcard(text: &str) -> (found: bool)
    ensures
        found == text@.contains('*'),
{
    let length = text.unicode_len();
    let mut i: usize = 0;
    while i < length
        invariant
            length == text@.len(),
            i <= length,
            forall|k: int| 0 <= k < i ==> text@[k] != '*',
        decreases length - i,
    {
        if text.get_char(i) == '*' {
            return true;
        }
        i += 1;
    }
    false
}

/// Splits `text` at its dots.
pub fn split_at_dots(text: &str) -> (segments: Vec<String>)
    ensures
        text_views(segments@) == split_segments(text@),
{
    let length = text.unicode_len();
    let mut segments: Vec<String> = Vec::new();
    let mut start: usize = 0;
    let mut i: usize = 0;
    assert(text@.take(0) =~= Seq::<char>::empty());
    assert(text@.subrange(0, 0) =~= Seq::<char>::empty());
    assert(text_views(segments@).push(text@.subrange(0, 0)) =~= split_segments(text@.take(0)));
    while i < length
        invariant
            length == text@.len(),
            start <= i <= length,
            text_views(segments@).push(text@.subrange(start as int, i as int)) == split_segments(
                text@.take(i as int),
            ),
        decreases length - i,
    {
        let ghost done = text_views(segments@);
        let ghost prefix = text@.take(i as int);
        let ghost next = text@.take(i as int + 1);
        proof {
            assert(next.drop_last() =~= prefix);
            assert(next.last() == text@[i as int]);
            assert(done.push(text@.subrange(start as int, i as int)).drop_last() =~= done);
        }
        if text.get_char(i) == '.' {
            segments.push(text.substring_char(start, i).to_owned());
            assert(text_views(segments@) =~= done.push(text@.subrange(start as int, i as int)));
            start = i + 1;
            assert(text@.subrange(start as int, i as int + 1) =~= Seq::<char>::empty());
        } else {
            assert(text@.subrange(start as int, i as int + 1) =~= text@.subrange(
                start as int,
                i as int,
            ).push(text@[i as int]));
        }
        i += 1;
    }
    assert(text@.take(length as int) =~= text@);
    let ghost done = text_views(segments@);
    segments.push(text.substring_char(start, length).to_owned());
    assert(text_views(segments@) =~= done.push(text@.subrange(start as int, length as int)));
    segments
}

/// Whether the pattern segments from `i` on match the event segments from `j`
/// on.
pub fn matches_parts(sub_parts: &Vec<String>, i: usize, event_parts: &Vec<String>, j: usize) -> (matched:
    bool)
    requires
        i <= sub_parts@.len(),
        j <= event_parts@.len(),
    ensures
        matched == segments_match(
            text_views(sub_parts@).skip(i as int),
            text_views(event_parts@).skip(j as int),
        ),
    decreases (sub_parts@.len() - i) + (event_parts@.len() - j),
{
    let ghost sub = text_views(sub_parts@).skip(i as int);
    let ghost event = text_views(event_parts@).skip(j as int);
    proof {
        if i < sub_parts@.len() {
            assert(sub.drop_first() =~= text_views(sub_parts@).skip(i as int + 1));
            assert(sub[0] == sub_parts@[i as int]@);
        }
        if j < event_parts@.len() {
            assert(event.drop_first() =~= text_views(event_parts@).skip(j as int + 1));
            assert(event[0] == event_parts@[j as int]@);
        }
    }
    if i == sub_parts.len() {
        j == event_parts.len()
    } else if same_text(sub_parts[i].as_str(), "**") {
        if matches_parts(sub_parts, i + 1, event_parts, j) {
            true
        } else {
            j < event_parts.len() && matches_parts(sub_parts, i, event_parts, j + 1)
        }
    } else if j == event_parts.len() {
        false
    } else if same_text(sub_parts[i].as_str(), "*") {
        matches_parts(sub_parts, i + 1, event_parts, j + 1)
    } else if sub_parts[i] == event_parts[j] {
        matches_parts(sub_parts, i + 1, event_parts, j + 1)
    } else {
        false
    }
}

/// Whether a subscription to `subscription_pattern` receives the event
/// `event_pattern`.
pub fn pattern_matches(subscription_pattern: &str, event_pattern: &str) -> (receives: bool)
    ensures
        receives == pattern_matches_spec(subscription_pattern@, event_pattern@),
{
    if same_text(subscription_pattern, "**") {
        return true;
    }
    if same_text(subscription_pattern, event_pattern) {
        return true;
    }
    if !has_wildcard(subscription_pattern) {
        return false;
    }
    let sub_parts = split_at_dots(subscription_pattern);
    let event_parts = split_at_dots(event_pattern);
    assert(text_views(sub_parts@).skip(0) =~= text_views(sub_parts@));
    assert(text_views(event_parts@).skip(0) =~= text_views(event_parts@));
    matches_parts(&sub_parts, 0, &event_parts, 0)
}

} // verus!
