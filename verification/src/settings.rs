//! The bot's configuration as the commands read it: the roles it hands out and
//! the options of the FAQ command.

use vstd::prelude::*;
use crate::interaction::{choice_is, Choice};

verus! {

/// The role ids of the configuration.
#[derive(PartialEq, Eq, Structural, Clone, Copy, Debug)]
pub struct RoleConfig {
    pub devforum_member: u64,
    pub roblox_verified: Option<u64>,
}

/// One FAQ answer that users can pick; its response lives beside it in the
/// loaded configuration, at the same position.
pub struct FaqEntry {
    /// What the user sees.
    pub label: String,
    /// The identifier the command receives.
    pub value: String,
}

/// The FAQ part of the configuration, in file order.
pub struct FaqConfig {
    pub entries: Vec<FaqEntry>,
}

/// Whether `i` is the position of the first entry whose value is `value`.
pub open spec fn first_entry_valued(entries: Seq<FaqEntry>, value: Seq<char>, i: int) -> bool {
    &&& 0 <= i < entries.len()
    &&& entries[i].value@ == value
    &&& forall|j: int| 0 <= j < i ==> entries[j].value@ != value
}

/// The position of the first entry whose value is `value`, if there is one.
pub open spec fn first_entry(entries: Seq<FaqEntry>, value: Seq<char>) -> Option<int> {
    if exists|i: int| first_entry_valued(entries, value, i) {
        Some(choose|i: int| first_entry_valued(entries, value, i))
    } else {
        None
    }
}

impl FaqConfig {
    /// The choices of the FAQ command's query option: one per entry, in order,
    /// named by the entry's label and valued by its value.
    pub fn faq_option_choices(&self) -> (r: Vec<Choice>)
        ensures
            r@.len() == self.entries@.len(),
            forall|i: int|
                0 <= i < r@.len() ==> choice_is(
                    #[trigger] r@[i],
                    self.entries@[i].label@,
                    self.entries@[i].value@,
                ),
    {
        let mut r: Vec<Choice> = Vec::new();
        let mut i: usize = 0;
        while i < self.entries.len()
            invariant
                i <= self.entries@.len(),
                r@.len() == i,
                forall|k: int|
                    0 <= k < i ==> choice_is(
                        #[trigger] r@[k],
                        self.entries@[k].label@,
                        self.entries@[k].value@,
                    ),
            decreases self.entries@.len() - i,
        {
            r.push(Choice { name: self.entries[i].label.clone(), value: self.entries[i].value.clone() });
            i = i + 1;
        }
        r
    }

    /// The position of the entry that answers the choice `value`: the first
    /// entry with that value, if any.
    pub fn faq_option_response(&self, value: &str) -> (r: Option<usize>)
        ensures
            match r {
                Some(i) => first_entry(self.entries@, value@) == Some(i as int),
                None => first_entry(self.entries@, value@) is None,
            },
    {
        let target = value.to_owned();
        let mut i: usize = 0;
        while i < self.entries.len()
            invariant
                i <= self.entries@.len(),
                target@ == value@,
                forall|j: int| 0 <= j < i ==> self.entries@[j].value@ != value@,
            decreases self.entries@.len() - i,
        {
            if self.entries[i].value == target {
                proof {
                    assert(first_entry_valued(self.entries@, value@, i as int));
                    let c = choose|k: int| first_entry_valued(self.entries@, value@, k);
                    if c < i {
                        assert(self.entries@[c].value@ != value@);
                    } else if c > i {
                        assert(self.entries@[i as int].value@ != value@);
                    }
                }
                return Some(i);
            }
            i = i + 1;
        }
        None
    }
}

/// Every choice the FAQ command offers leads back to an entry with that value.
pub proof fn lemma_faq_choices_found(config: FaqConfig, choices: Seq<Choice>, i: int)
    requires
        choices.len() == config.entries@.len(),
        forall|k: int|
            0 <= k < choices.len() ==> choice_is(
                #[trigger] choices[k],
                config.entries@[k].label@,
                config.entries@[k].value@,
            ),
        0 <= i < choices.len(),
    ensures
        first_entry(config.entries@, choices[i].value@) matches Some(j) && j <= i
            && config.entries@[j].value@ == choices[i].value@,
{
    assert(choice_is(choices[i], config.entries@[i].label@, config.entries@[i].value@));
    lemma_first_entry_at_most(config.entries@, choices[i].value@, i);
}

/// When entry `i` has value `v`, the first entry with value `v` exists and is
/// no later than `i`.
pub proof fn lemma_first_entry_at_most(e: Seq<FaqEntry>, v: Seq<char>, i: int)
    requires
        0 <= i < e.len(),
        e[i].value@ == v,
    ensures
        first_entry(e, v) matches Some(j) && j <= i && e[j].value@ == v,
    decreases i,
{
    if exists|j: int| 0 <= j < i && e[j].value@ == v {
        let j = choose|j: int| 0 <= j < i && e[j].value@ == v;
        lemma_first_entry_at_most(e, v, j);
    } else {
        assert(first_entry_valued(e, v, i));
        let c = choose|m: int| first_entry_valued(e, v, m);
        if c < i {
            assert(e[c].value@ != v);
        } else if c > i {
            assert(e[i].value@ != v);
        }
    }
}

/// The configuration file path: the given argument, or `magnolia.cfg.yml`.
pub fn config_path_or_default(arg: Option<String>) -> (r: String)
    ensures
        match arg {
            Some(a) => r@ == a@,
            None => r@ == "magnolia.cfg.yml"@,
        },
{
    match arg {
        Some(a) => a,
        None => "magnolia.cfg.yml".to_owned(),
    }
}

} // verus!
