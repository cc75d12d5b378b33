//! The action menu: which key does what in the current state.

use vstd::prelude::*;
use crate::keys::{caption_of, key_caption, Key};

verus! {

/// One advertised key binding.
pub struct Action {
    pub trigger: Key,
    pub description: &'static str,
}

/// Mathematical model of an advertised key binding.
pub struct ActionSpec {
    pub trigger: Key,
    pub description: Seq<char>,
}

impl View for Action {
    type V = ActionSpec;

    open spec fn view(&self) -> ActionSpec {
        ActionSpec { trigger: self.trigger, description: self.description@ }
    }
}

/// Whether some entry is bound to `trigger`.
pub open spec fn has_trigger(entries: Seq<ActionSpec>, trigger: Key) -> bool {
    exists|i: int| 0 <= i < entries.len() && (#[trigger] entries[i]).trigger == trigger
}

/// No two entries share a trigger.
pub open spec fn triggers_distinct(entries: Seq<ActionSpec>) -> bool {
    forall|i: int, j: int|
        0 <= i < j < entries.len() ==> (#[trigger] entries[i]).trigger != (
        #[trigger] entries[j]).trigger
}

/// The entries after an insertion: a trigger that is already bound keeps its
/// description, a new one is appended.
pub open spec fn with_action(entries: Seq<ActionSpec>, trigger: Key, description: Seq<char>) -> Seq<
    ActionSpec,
> {
    if has_trigger(entries, trigger) {
        entries
    } else {
        entries.push(ActionSpec { trigger, description })
    }
}

/// The description that the entries advertise for `trigger`: that of the
/// first entry bound to it.
pub open spec fn description_of(entries: Seq<ActionSpec>, trigger: Key) -> Option<Seq<char>>
    decreases entries.len(),
{
    if entries.len() == 0 {
        None
    } else if entries[0].trigger == trigger {
        Some(entries[0].description)
    } else {
        description_of(entries.drop_first(), trigger)
    }
}

/// The text of one entry of the menu line, given the key's caption.
pub open spec fn entry_text(caption: Seq<char>, description: Seq<char>) -> Seq<char> {
    "["@ + caption + "] "@ + description + "\t"@
}

/// The menu line: the texts of all entries, in insertion order.
pub open spec fn menu_line(entries: Seq<ActionSpec>) -> Seq<char>
    decreases entries.len(),
{
    if entries.len() == 0 {
        Seq::empty()
    } else {
        menu_line(entries.drop_last()) + entry_text(
            key_caption(entries.last().trigger),
            entries.last().description,
        )
    }
}

/// Writes one entry of the menu line: the caption in square brackets, a
/// space, the description and a tabulator.
pub fn format_entry(caption: &str, description: &str) -> (text: String)
    ensures
        text@ == entry_text(caption@, description@),
{
    let mut text = String::new();
    text.append("[");
    text.append(caption);
    text.append("] ");
    text.append(description);
    text.append("\t");
    assert(text@ =~= entry_text(caption@, description@));
    text
}

/// Where `first` is the first entry bound to `trigger`, its description is
/// the one advertised.
pub proof fn lemma_description_of_first(entries: Seq<ActionSpec>, trigger: Key, first: int)
    requires
        0 <= first < entries.len(),
        entries[first].trigger == trigger,
        forall|j: int| 0 <= j < first ==> (#[trigger] entries[j]).trigger != trigger,
    ensures
        description_of(entries, trigger) == Some(entries[first].description),
    decreases entries.len(),
{
    if first > 0 {
        assert(entries[0].trigger != trigger);
        let rest = entries.drop_first();
        assert forall|j: int| 0 <= j < first - 1 implies (#[trigger] rest[j]).trigger
            != trigger by {
            assert(rest[j] == entries[j + 1]);
        }
        lemma_description_of_first(rest, trigger, first - 1);
    }
}

/// A trigger that no entry is bound to has no description.
pub proof fn lemma_description_of_absent(entries: Seq<ActionSpec>, trigger: Key)
    requires
        !has_trigger(entries, trigger),
    ensures
        description_of(entries, trigger) is None,
    decreases entries.len(),
{
    if entries.len() > 0 {
        assert(entries[0].trigger != trigger);
        let rest = entries.drop_first();
        assert forall|j: int| 0 <= j < rest.len() implies (#[trigger] rest[j]).trigger
            != trigger by {
            assert(rest[j] == entries[j + 1]);
        }
        lemma_description_of_absent(rest, trigger);
    }
}

/// The first insertion for a trigger wins: a second insertion under the same
/// trigger changes nothing, and where the trigger was free before the first
/// one, the menu advertises the first description for it.
pub proof fn lemma_first_insertion_wins(
    entries: Seq<ActionSpec>,
    trigger: Key,
    first: Seq<char>,
    second: Seq<char>,
)
    ensures
        with_action(with_action(entries, trigger, first), trigger, second) == with_action(
            entries,
            trigger,
            first,
        ),
        !has_trigger(entries, trigger) ==> description_of(
            with_action(with_action(entries, trigger, first), trigger, second),
            trigger,
        ) == Some(first),
        has_trigger(entries, trigger) ==> description_of(
            with_action(with_action(entries, trigger, first), trigger, second),
            trigger,
        ) == description_of(entries, trigger),
{
    let once = with_action(entries, trigger, first);
    if has_trigger(entries, trigger) {
        assert(once == entries);
    } else {
        let last = entries.len() as int;
        assert(once[last].trigger == trigger);
        assert(has_trigger(once, trigger));
        assert forall|j: int| 0 <= j < last implies (#[trigger] once[j]).trigger != trigger by {
            assert(once[j] == entries[j]);
        }
        lemma_description_of_first(once, trigger, last);
    }
}

/// An insertion keeps the triggers distinct.
pub proof fn lemma_with_action_distinct(
    entries: Seq<ActionSpec>,
    trigger: Key,
    description: Seq<char>,
)
    requires
        triggers_distinct(entries),
    ensures
        triggers_distinct(with_action(entries, trigger, description)),
{
    if !has_trigger(entries, trigger) {
        let after = with_action(entries, trigger, description);
        assert forall|i: int, j: int| 0 <= i < j < after.len() implies (#[trigger] after[i]).trigger
            != (#[trigger] after[j]).trigger by {
            assert(after[i] == entries[i]);
            if j < entries.len() {
                assert(after[j] == entries[j]);
            }
        }
    }
}

/// The deduplicated, insertion-ordered set of advertised key bindings.
pub struct ActionPreviewSet {
    actions: Vec<Action>,
}

impl View for ActionPreviewSet {
    type V = Seq<ActionSpec>;

    closed spec fn view(&self) -> Seq<ActionSpec> {
        Seq::new(self.actions@.len(), |i: int| self.actions@[i]@)
    }
}

impl ActionPreviewSet {
    /// Well-formedness: every trigger is advertised at most once.
    pub open spec fn wf(&self) -> bool {
        triggers_distinct(self@)
    }

    /// Position of the first entry bound to `key`, if there is one.
    fn position(&self, key: Key) -> (found: Option<usize>)
        ensures
            match found {
                Some(i) => {
                    &&& i < self@.len()
                    &&& self.actions@[i as int]@ == self@[i as int]
                    &&& self@[i as int].trigger == key
                    &&& forall|j: int| 0 <= j < i ==> (#[trigger] self@[j]).trigger != key
                },
                None => !has_trigger(self@, key),
            },
    {
        let mut i: usize = 0;
        while i < self.actions.len()
            invariant
                i <= self.actions.len(),
                forall|j: int| 0 <= j < i ==> (#[trigger] self@[j]).trigger != key,
            decreases self.actions.len() - i,
        {
            if self.actions[i].trigger == key {
                return Some(i);
            }
            i += 1;
        }
        None
    }

    /// An empty menu.
    pub fn new() -> (menu: Self)
        ensures
            menu.wf(),
            menu@ == Seq::<ActionSpec>::empty(),
    {
        let menu = ActionPreviewSet { actions: Vec::new() };
        assert(menu@ =~= Seq::<ActionSpec>::empty());
        menu
    }

    /// Number of advertised key bindings.
    pub fn len(&self) -> (n: usize)
        ensures
            n == self@.len(),
    {
        self.actions.len()
    }

    /// The entries in insertion order.
    pub fn entries(&self) -> (entries: &Vec<Action>)
        ensures
            entries@.len() == self@.len(),
            forall|i: int| 0 <= i < entries@.len() ==> (#[trigger] entries@[i])@ == self@[i],
    {
        &self.actions
    }

    /// The description advertised for `key`, if the key is bound.
    pub fn get(&self, key: Key) -> (found: Option<&'static str>)
        ensures
            match found {
                Some(description) => description_of(self@, key) == Some(description@),
                None => description_of(self@, key) is None,
            },
    {
        match self.position(key) {
            Some(i) => {
                proof {
                    lemma_description_of_first(self@, key, i as int);
                }
                Some(self.actions[i].description)
            },
            None => {
                proof {
                    lemma_description_of_absent(self@, key);
                }
                None
            },
        }
    }

    /// The menu as one line of text, the entries in insertion order.
    pub fn to_text(&self) -> (text: String)
        ensures
            text@ == menu_line(self@),
    {
        let mut text = String::new();
        let mut i: usize = 0;
        while i < self.actions.len()
            invariant
                i <= self.actions.len(),
                text@ == menu_line(self@.take(i as int)),
            decreases self.actions.len() - i,
        {
            let caption = caption_of(self.actions[i].trigger);
            let entry = format_entry(caption.as_str(), self.actions[i].description);
            text.append(entry.as_str());
            proof {
                let upto = self@.take(i + 1);
                assert(upto.drop_last() =~= self@.take(i as int));
                assert(upto.last() == self@[i as int]);
            }
            i += 1;
        }
        assert(self@.take(i as int) =~= self@);
        text
    }

    /// Removes every entry.
    pub fn reset(&mut self)
        ensures
            final(self).wf(),
            final(self)@ == Seq::<ActionSpec>::empty(),
    {
        self.actions.clear();
        assert(self@ =~= Seq::<ActionSpec>::empty());
    }

    /// Advertises `desc` for `key` unless the key is already bound.
    pub fn insert(&mut self, key: Key, desc: &'static str)
        requires
            old(self).wf(),
        ensures
            final(self).wf(),
            final(self)@ == with_action(old(self)@, key, desc@),
    {
        proof {
            lemma_with_action_distinct(self@, key, desc@);
        }
        if self.position(key).is_none() {
            self.actions.push(Action { trigger: key, description: desc });
            assert(self@ =~= old(self)@.push(ActionSpec { trigger: key, description: desc@ }));
        }
    }
}

impl Default for ActionPreviewSet {
    fn default() -> (menu: Self)
        ensures
            menu.wf(),
            menu@ == Seq::<ActionSpec>::empty(),
    {
        ActionPreviewSet::new()
    }
}

} // verus!
