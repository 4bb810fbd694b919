//! Structured input as it arrives from the notification channel.

use crate::text::same_text;
use vstd::prelude::*;

verus! {

/// A structured value: what a self-describing wire format can carry.
#[derive(Debug, PartialEq, Eq)]
pub enum Payload {
    /// The absent value.
    Null,
    /// A truth value.
    Bool(bool),
    /// A whole number.
    Integer(i128),
    /// A number that is not whole, held by the bits of its double.
    Float(u64),
    /// A string.
    Text(String),
    /// A sequence of values.
    List(Vec<Payload>),
    /// Named values, in wire order. A name may occur more than once.
    Record(Vec<(String, Payload)>),
}

/// The mathematical value of a [`Payload`].
pub enum PayloadView {
    Null,
    Bool(bool),
    Integer(int),
    Float(u64),
    Text(Seq<char>),
    List(Seq<PayloadView>),
    Record(Seq<(Seq<char>, PayloadView)>),
}

/// What `payload` holds, as a mathematical value.
pub open spec fn value_of(payload: &Payload) -> PayloadView
    decreases payload,
{
    match payload {
        Payload::Null => PayloadView::Null,
        Payload::Bool(b) => PayloadView::Bool(*b),
        Payload::Integer(n) => PayloadView::Integer(*n as int),
        Payload::Float(bits) => PayloadView::Float(*bits),
        Payload::Text(s) => PayloadView::Text(s@),
        Payload::List(items) => PayloadView::List(
            Seq::new(
                items.len() as nat,
                |i: int|
                    if 0 <= i < items.len() {
                        value_of(&items[i])
                    } else {
                        PayloadView::Null
                    },
            ),
        ),
        Payload::Record(entries) => PayloadView::Record(
            Seq::new(
                entries.len() as nat,
                |i: int|
                    if 0 <= i < entries.len() {
                        (entries[i].0@, value_of(&entries[i].1))
                    } else {
                        (Seq::empty(), PayloadView::Null)
                    },
            ),
        ),
    }
}

impl View for Payload {
    type V = PayloadView;

    open spec fn view(&self) -> PayloadView {
        value_of(self)
    }
}

/// The named values of a record, in wire order.
pub type Entries = Seq<(Seq<char>, PayloadView)>;

/// The mathematical value of a record's entries.
pub open spec fn entries_view(entries: &Vec<(String, Payload)>) -> Entries {
    Seq::new(entries.len() as nat, |i: int| (entries[i].0@, entries[i].1@))
}

/// A record is, mathematically, the record of its entries' values.
pub proof fn lemma_record_view(entries: &Vec<(String, Payload)>)
    ensures
        Payload::Record(*entries)@ == PayloadView::Record(entries_view(entries)),
{
    assert(Payload::Record(*entries)@->Record_0 =~= entries_view(entries));
}

/// Whether the entry at `i` is the only one of `entries` that is called `name`.
pub open spec fn sole(entries: Entries, name: Seq<char>, i: int) -> bool {
    &&& 0 <= i < entries.len()
    &&& entries[i].0 == name
    &&& forall|j: int| 0 <= j < entries.len() && (#[trigger] entries[j]).0 == name ==> j == i
}

/// The value that `entries` give `name`: that of the only entry called so.
/// A name that no entry has, or more than one, has no value.
pub open spec fn lookup(entries: Entries, name: Seq<char>) -> Option<PayloadView> {
    if exists|i: int| sole(entries, name, i) {
        Some(entries[choose|i: int| sole(entries, name, i)].1)
    } else {
        None
    }
}

/// The value that `entries` give `name`, if they give it exactly one.
pub fn find<'a>(entries: &'a Vec<(String, Payload)>, name: &str) -> (found: Option<&'a Payload>)
    ensures
        match lookup(entries_view(entries), name@) {
            Some(value) => found matches Some(payload) && payload@ == value,
            None => found is None,
        },
{
    let ghost named = entries_view(entries);
    let mut found: Option<&'a Payload> = None;
    let ghost mut at: int = 0;
    let mut i: usize = 0;
    while i < entries.len()
        invariant
            i <= entries.len(),
            named == entries_view(entries),
            match found {
                Some(payload) => {
                    &&& 0 <= at < i
                    &&& named[at].0 == name@
                    &&& payload@ == named[at].1
                    &&& forall|j: int| 0 <= j < i && (#[trigger] named[j]).0 == name@ ==> j == at
                },
                None => forall|j: int| 0 <= j < i ==> (#[trigger] named[j]).0 != name@,
            },
        decreases entries.len() - i,
    {
        if same_text(entries[i].0.as_str(), name) {
            if found.is_some() {
                assert forall|k: int| !sole(named, name@, k) by {
                    if sole(named, name@, k) {
                        assert(named[at].0 == name@);
                        assert(named[i as int].0 == name@);
                    }
                }
                return None;
            }
            found = Some(&entries[i].1);
            proof {
                at = i as int;
            }
        }
        i += 1;
    }
    proof {
        match found {
            Some(payload) => {
                lemma_lookup_sole(named, name@, at);
            },
            None => {
                assert forall|k: int| !sole(named, name@, k) by {
                    if sole(named, name@, k) {
                        assert(named[k].0 == name@);
                    }
                }
            },
        }
    }
    found
}

/// Where `entries` have one entry called `name`, that entry's value is what
/// they give `name`.
pub proof fn lemma_lookup_sole(entries: Entries, name: Seq<char>, i: int)
    requires
        sole(entries, name, i),
    ensures
        lookup(entries, name) == Some(entries[i].1),
{
    let k = choose|k: int| sole(entries, name, k);
    assert(entries[i].0 == name);
    assert(k == i);
}

/// An entry under another name, put in at any place, does not change what
/// the entries give `name`.
pub proof fn lemma_lookup_passes_over(
    entries: Entries,
    at: int,
    other: Seq<char>,
    value: PayloadView,
    name: Seq<char>,
)
    requires
        0 <= at <= entries.len(),
        other != name,
    ensures
        lookup(entries.insert(at, (other, value)), name) == lookup(entries, name),
{
    let wider = entries.insert(at, (other, value));
    if exists|i: int| sole(entries, name, i) {
        let i = choose|i: int| sole(entries, name, i);
        let moved = if i < at {
            i
        } else {
            i + 1
        };
        assert forall|j: int| 0 <= j < wider.len() && (#[trigger] wider[j]).0 == name implies j
            == moved by {
            if j != at {
                let back = if j < at {
                    j
                } else {
                    j - 1
                };
                assert(entries[back] == wider[j]);
            }
        }
        lemma_lookup_sole(entries, name, i);
        lemma_lookup_sole(wider, name, moved);
    } else {
        assert forall|k: int| !sole(wider, name, k) by {
            if sole(wider, name, k) {
                let back = if k < at {
                    k
                } else {
                    k - 1
                };
                assert(entries[back] == wider[k]);
                assert forall|j: int|
                    0 <= j < entries.len() && (#[trigger] entries[j]).0 == name implies j
                    == back by {
                    let forth = if j < at {
                        j
                    } else {
                        j + 1
                    };
                    assert(wider[forth] == entries[j]);
                }
                assert(sole(entries, name, back));
            }
        }
    }
}

} // verus!
