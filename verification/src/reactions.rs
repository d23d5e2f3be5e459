//! The reactions to a note: for each reaction code, the users who reacted.

use vstd::prelude::*;

use crate::decode::{Decode, Fields};
use crate::error::{DecodeError, DecodeErrorView, Expected, Fault, Step, StepView};
use crate::ids::UserId;
use crate::json::{lemma_members_model, members_model, model, text_eq, Json, JsonValue};

verus! {

/// One reaction: its code, and the users who reacted with it, in the order and
/// as often as the payload lists them.
#[derive(Debug, PartialEq, Eq)]
pub struct Reaction {
    pub code: String,
    pub users: Vec<UserId>,
}

/// The model of a [`Reaction`].
pub struct ReactionView {
    pub code: Seq<char>,
    pub users: Seq<UserId>,
}

impl DeepView for Reaction {
    type V = ReactionView;

    open spec fn deep_view(&self) -> ReactionView {
        ReactionView { code: self.code@, users: self.users.deep_view() }
    }
}

/// The reactions to a note, one entry for each code.
#[derive(Debug, PartialEq, Eq)]
pub struct Reactions {
    pub entries: Vec<Reaction>,
}

impl DeepView for Reactions {
    type V = Seq<ReactionView>;

    open spec fn deep_view(&self) -> Seq<ReactionView> {
        self.entries.deep_view()
    }
}

/// No code occurs in two entries.
pub open spec fn distinct_codes(entries: Seq<ReactionView>) -> bool {
    forall|i: int, j: int|
        0 <= i < j < entries.len() ==> (#[trigger] entries[i]).code != (#[trigger] entries[j]).code
}

/// The place of the entry with a code, if there is one.
pub open spec fn place_of(entries: Seq<ReactionView>, code: Seq<char>) -> Option<int>
    decreases entries.len(),
{
    if entries.len() == 0 {
        None
    } else {
        match place_of(entries.drop_last(), code) {
            Some(i) => Some(i),
            None => if entries.last().code == code {
                Some(entries.len() - 1)
            } else {
                None
            },
        }
    }
}

/// The entries with one more reaction: in the place of the entry that has its
/// code, or at the end if none has.
pub open spec fn with_reaction(entries: Seq<ReactionView>, reaction: ReactionView) -> Seq<
    ReactionView,
> {
    match place_of(entries, reaction.code) {
        Some(i) => entries.update(i, reaction),
        None => entries.push(reaction),
    }
}

/// The members of a map of reactions, read in order; a later member with the
/// code of an earlier one replaces it.
pub open spec fn reactions_of(members: Fields) -> Result<Seq<ReactionView>, DecodeErrorView>
    decreases members.len(),
{
    if members.len() == 0 {
        Ok(Seq::empty())
    } else {
        let (code, value) = members.last();
        match reactions_of(members.drop_last()) {
            Ok(entries) => match Vec::<UserId>::decoded(value) {
                Ok(users) => Ok(with_reaction(entries, ReactionView { code, users })),
                Err(e) => Err(e.under(StepView::Key(code))),
            },
            Err(e) => Err(e),
        }
    }
}

/// The place that is found holds the code, and it is the first that does;
/// where none is found, no entry holds the code.
pub proof fn lemma_place_of(entries: Seq<ReactionView>, code: Seq<char>)
    ensures
        match place_of(entries, code) {
            Some(i) => 0 <= i < entries.len() && entries[i].code == code && forall|k: int|
                0 <= k < i ==> (#[trigger] entries[k]).code != code,
            None => forall|k: int| 0 <= k < entries.len() ==> (#[trigger] entries[k]).code != code,
        },
    decreases entries.len(),
{
    if entries.len() > 0 {
        let front = entries.drop_last();
        lemma_place_of(front, code);
        assert forall|k: int| 0 <= k < front.len() implies front[k] == entries[k] by {}
        match place_of(front, code) {
            Some(i) => {
                assert(entries[i] == front[i]);
                assert forall|k: int| 0 <= k < i implies (#[trigger] entries[k]).code != code by {
                    assert(entries[k] == front[k]);
                }
            },
            None => {
                assert forall|k: int| 0 <= k < front.len() implies (#[trigger] entries[k]).code
                    != code by {
                    assert(entries[k] == front[k]);
                }
            },
        }
    }
}

/// One more reaction leaves the codes distinct.
pub proof fn lemma_with_reaction_distinct(entries: Seq<ReactionView>, reaction: ReactionView)
    requires
        distinct_codes(entries),
    ensures
        distinct_codes(with_reaction(entries, reaction)),
{
    lemma_place_of(entries, reaction.code);
    let after = with_reaction(entries, reaction);
    assert forall|i: int, j: int| 0 <= i < j < after.len() implies (#[trigger] after[i]).code != (
    #[trigger] after[j]).code by {
        match place_of(entries, reaction.code) {
            Some(p) => {
                if i != p && j != p {
                    assert(entries[i].code != entries[j].code);
                } else if i == p {
                    assert(entries[p].code != entries[j].code);
                } else {
                    assert(entries[i].code != entries[p].code);
                }
            },
            None => {
                if j < entries.len() {
                    assert(entries[i].code != entries[j].code);
                } else {
                    assert(entries[i].code != reaction.code);
                }
            },
        }
    }
}

/// A decoded map of reactions holds every code once.
pub proof fn lemma_reactions_distinct(members: Fields)
    ensures
        reactions_of(members) matches Ok(entries) ==> distinct_codes(entries),
    decreases members.len(),
{
    if members.len() > 0 {
        lemma_reactions_distinct(members.drop_last());
        if let Ok(entries) = reactions_of(members.drop_last()) {
            if let Ok(users) = Vec::<UserId>::decoded(members.last().1) {
                lemma_with_reaction_distinct(
                    entries,
                    ReactionView { code: members.last().0, users },
                );
            }
        }
    }
}

/// Once a prefix of the members has failed, the map fails in the same way.
pub proof fn lemma_reactions_prefix(members: Fields, n: int)
    requires
        0 <= n <= members.len(),
        reactions_of(members.take(n)) is Err,
    ensures
        reactions_of(members) == reactions_of(members.take(n)),
    decreases members.len() - n,
{
    if n < members.len() {
        assert(members.take(n + 1).drop_last() =~= members.take(n));
        lemma_reactions_prefix(members, n + 1);
    } else {
        assert(members.take(n) =~= members);
    }
}

/// Once a code is found in a prefix of the entries, it is found there in all
/// of them.
pub proof fn lemma_place_of_prefix(entries: Seq<ReactionView>, code: Seq<char>, n: int)
    requires
        0 <= n <= entries.len(),
        place_of(entries.take(n), code) is Some,
    ensures
        place_of(entries, code) == place_of(entries.take(n), code),
    decreases entries.len() - n,
{
    if n < entries.len() {
        assert(entries.take(n + 1).drop_last() =~= entries.take(n));
        lemma_place_of_prefix(entries, code, n + 1);
    } else {
        assert(entries.take(n) =~= entries);
    }
}

/// Finds the entry with a code.
pub fn find_reaction(entries: &Vec<Reaction>, code: &str) -> (r: Option<usize>)
    ensures
        match r {
            Some(i) => place_of(entries.deep_view(), code@) == Some(i as int),
            None => place_of(entries.deep_view(), code@) is None,
        },
{
    let ghost all = entries.deep_view();
    let mut i: usize = 0;
    assert(all.take(0) =~= Seq::empty());
    while i < entries.len()
        invariant
            i <= entries@.len(),
            all == entries.deep_view(),
            place_of(all.take(i as int), code@) is None,
        decreases entries@.len() - i,
    {
        proof {
            assert(all.take(i + 1).drop_last() =~= all.take(i as int));
            assert(all.take(i + 1).last() == all[i as int]);
            assert(all[i as int] == entries@[i as int].deep_view());
        }
        if text_eq(entries[i].code.as_str(), code) {
            proof {
                lemma_place_of_prefix(all, code@, i + 1);
            }
            return Some(i);
        }
        i += 1;
    }
    assert(all.take(i as int) =~= all);
    None
}

/// Adds a reaction: in the place of the entry that has its code, or at the end
/// if none has.
pub fn add_reaction(entries: &mut Vec<Reaction>, reaction: Reaction)
    ensures
        final(entries).deep_view() == with_reaction(old(entries).deep_view(), reaction.deep_view()),
{
    let ghost before = entries.deep_view();
    match find_reaction(entries, reaction.code.as_str()) {
        Some(i) => {
            proof {
                lemma_place_of(before, reaction.code@);
            }
            entries.set(i, reaction);
            assert(entries.deep_view() =~= before.update(i as int, reaction.deep_view()));
        },
        None => {
            entries.push(reaction);
            assert(entries.deep_view() =~= before.push(reaction.deep_view()));
        },
    }
}

impl Decode for Reactions {
    open spec fn decoded(v: JsonValue) -> Result<Seq<ReactionView>, DecodeErrorView> {
        match v {
            JsonValue::Object(members) => reactions_of(members),
            _ => Err(DecodeErrorView::here(Fault::Mismatch(Expected::Record))),
        }
    }

    fn decode(j: &Json) -> (r: Result<Reactions, DecodeError>) {
        match j.as_object() {
            None => Err(DecodeError::here(Fault::Mismatch(Expected::Record))),
            Some(members) => {
                let ghost all = members_model(members@);
                let mut entries: Vec<Reaction> = Vec::new();
                let mut i: usize = 0;
                proof {
                    lemma_members_model(members@);
                    assert(all.take(0) =~= Seq::empty());
                    assert(entries.deep_view() =~= Seq::empty());
                }
                while i < members.len()
                    invariant
                        i <= members@.len(),
                        all.len() == members@.len(),
                        forall|k: int|
                            0 <= k < all.len() ==> #[trigger] all[k] == (
                                members@[k].key@,
                                model(members@[k].value),
                            ),
                        reactions_of(all.take(i as int)) == Ok::<
                            Seq<ReactionView>,
                            DecodeErrorView,
                        >(entries.deep_view()),
                        j.deep_view() == JsonValue::Object(all),
                    decreases members@.len() - i,
                {
                    proof {
                        assert(all.take(i + 1).drop_last() =~= all.take(i as int));
                        assert(all.take(i + 1).last() == all[i as int]);
                    }
                    let member = &members[i];
                    match Vec::<UserId>::decode(&member.value) {
                        Ok(users) => {
                            add_reaction(&mut entries, Reaction { code: member.key.clone(), users });
                        },
                        Err(e) => {
                            proof {
                                lemma_reactions_prefix(all, i + 1);
                            }
                            return Err(e.under(Step::Key(member.key.clone())));
                        },
                    }
                    i += 1;
                }
                assert(all.take(i as int) =~= all);
                Ok(Reactions { entries })
            },
        }
    }
}

} // verus!
