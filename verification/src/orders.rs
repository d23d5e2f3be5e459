//! Ranks: the place of an entity among its siblings, and the map from items
//! to their rank in the daily agenda.

use std::collections::BTreeMap;
use vstd::prelude::*;

use crate::decode::{Decode, Fields};
use crate::error::{DecodeError, DecodeErrorView, Expected, Fault, Step, StepView};
use crate::ids::ItemId;
use crate::json::{lemma_members_model, members_model, model, Json, JsonValue};

verus! {

/// A signed rank: entities are shown by increasing rank.
#[derive(Clone, Copy, Debug, PartialEq, Eq, Structural)]
pub struct Order(pub i64);

impl DeepView for Order {
    type V = Order;

    open spec fn deep_view(&self) -> Order {
        *self
    }
}

impl Decode for Order {
    open spec fn decoded(v: JsonValue) -> Result<Order, DecodeErrorView> {
        match i64::decoded(v) {
            Ok(n) => Ok(Order(n)),
            Err(e) => Err(e),
        }
    }

    fn decode(j: &Json) -> (r: Result<Order, DecodeError>) {
        Ok(Order(i64::decode(j)?))
    }
}

/// Whether a character is a decimal digit.
pub open spec fn is_digit(c: char) -> bool {
    '0' <= c <= '9'
}

/// The number that a run of decimal digits denotes; zero for the empty run.
pub open spec fn decimal_of(digits: Seq<char>) -> nat
    decreases digits.len(),
{
    if digits.len() == 0 {
        0
    } else {
        (decimal_of(digits.drop_last()) * 10 + (digits.last() as u32 - '0' as u32)) as nat
    }
}

/// The identifier that the key of a map entry spells: the key is a number in
/// decimal digits, without sign and without a leading zero, that fits in 64
/// bits.
pub open spec fn item_key_of(key: Seq<char>) -> Option<u64> {
    if key.len() > 0 && (forall|i: int| 0 <= i < key.len() ==> is_digit(#[trigger] key[i])) && (
    key[0] != '0' || key.len() == 1) && decimal_of(key) <= u64::MAX {
        Some(decimal_of(key) as u64)
    } else {
        None
    }
}

/// A run of digits denotes at least what any of its prefixes denotes.
pub proof fn lemma_decimal_grows(digits: Seq<char>, n: int)
    requires
        0 <= n <= digits.len(),
        forall|i: int| 0 <= i < digits.len() ==> is_digit(#[trigger] digits[i]),
    ensures
        decimal_of(digits.take(n)) <= decimal_of(digits),
    decreases digits.len() - n,
{
    if n < digits.len() {
        lemma_decimal_grows(digits, n + 1);
        assert(digits.take(n + 1).drop_last() =~= digits.take(n));
        assert(is_digit(digits[n]));
    } else {
        assert(digits.take(n) =~= digits);
    }
}

/// Reads the identifier that the key of a map entry spells.
pub fn item_key(key: &str) -> (r: Option<u64>)
    ensures
        r == item_key_of(key@),
{
    if !key.is_ascii() {
        return None;
    }
    let bytes = key.as_bytes();
    proof {
        vstd::utf8::is_ascii_chars_encode_utf8(key@);
    }
    let n = bytes.len();
    if n == 0 {
        return None;
    }
    if n > 1 && bytes[0] == 48 {
        assert(key@[0] == '0');
        return None;
    }
    let mut value: u64 = 0;
    let mut i: usize = 0;
    assert(key@.take(0) =~= Seq::empty());
    while i < n
        invariant
            i <= n,
            n == key@.len(),
            n == bytes@.len(),
            n == 1 || bytes@[0] != 48,
            forall|k: int| 0 <= k < n ==> key@[k] as u8 == #[trigger] bytes@[k],
            forall|k: int| 0 <= k < n ==> '\0' <= #[trigger] key@[k] <= '\u{7f}',
            forall|k: int| 0 <= k < i ==> is_digit(#[trigger] key@[k]),
            value == decimal_of(key@.take(i as int)),
        decreases n - i,
    {
        let b = bytes[i];
        if b < 48 || b > 57 {
            assert(!is_digit(key@[i as int]));
            return None;
        }
        let digit: u64 = (b - 48) as u64;
        assert(is_digit(key@[i as int]));
        assert(digit == key@[i as int] as u32 - '0' as u32);
        proof {
            assert(key@.take(i + 1).drop_last() =~= key@.take(i as int));
            assert(key@.take(i + 1).last() == key@[i as int]);
        }
        if value > (u64::MAX - digit) / 10 {
            proof {
                if forall|k: int| 0 <= k < n ==> is_digit(#[trigger] key@[k]) {
                    lemma_decimal_grows(key@, i + 1);
                }
            }
            return None;
        }
        value = value * 10 + digit;
        i += 1;
    }
    assert(key@.take(n as int) =~= key@);
    assert(key@[0] != '0' || n == 1) by {
        assert(key@[0] as u8 == bytes@[0]);
    }
    Some(value)
}

/// The ranks of the items in the daily agenda: at most one rank for an item.
#[derive(Debug, PartialEq, Eq)]
pub struct DayOrders {
    ranks: BTreeMap<u64, i64>,
}

impl DeepView for DayOrders {
    type V = Map<ItemId, Order>;

    closed spec fn deep_view(&self) -> Map<ItemId, Order> {
        ranks_model(self.ranks@)
    }
}

/// The ranks by item, given the ranks by the number of the item.
pub open spec fn ranks_model(ranks: Map<u64, i64>) -> Map<ItemId, Order> {
    Map::new(|item: ItemId| ranks.contains_key(item.0), |item: ItemId| Order(ranks[item.0]))
}

/// The entries of a map of ranks, read in order; a later entry for an item
/// replaces an earlier one.
pub open spec fn day_orders_of(entries: Fields) -> Result<Map<ItemId, Order>, DecodeErrorView>
    decreases entries.len(),
{
    if entries.len() == 0 {
        Ok(Map::empty())
    } else {
        let (key, value) = entries.last();
        match day_orders_of(entries.drop_last()) {
            Ok(ranks) => match item_key_of(key) {
                Some(item) => match Order::decoded(value) {
                    Ok(order) => Ok(ranks.insert(ItemId(item), order)),
                    Err(e) => Err(e.under(StepView::Key(key))),
                },
                None => Err(DecodeErrorView::here(Fault::BadKey).under(StepView::Key(key))),
            },
            Err(e) => Err(e),
        }
    }
}

/// Once a prefix of the entries has failed, the map fails in the same way.
pub proof fn lemma_day_orders_prefix(entries: Fields, n: int)
    requires
        0 <= n <= entries.len(),
        day_orders_of(entries.take(n)) is Err,
    ensures
        day_orders_of(entries) == day_orders_of(entries.take(n)),
    decreases entries.len() - n,
{
    if n < entries.len() {
        assert(entries.take(n + 1).drop_last() =~= entries.take(n));
        lemma_day_orders_prefix(entries, n + 1);
    } else {
        assert(entries.take(n) =~= entries);
    }
}

impl DayOrders {
    /// The rank of an item, if the agenda holds one.
    pub fn rank(&self, item: ItemId) -> (r: Option<Order>)
        ensures
            r == if self.deep_view().contains_key(item) {
                Some(self.deep_view()[item])
            } else {
                None
            },
    {
        broadcast use vstd::std_specs::btree::group_btree_axioms;

        match self.ranks.get(&item.0) {
            Some(rank) => Some(Order(*rank)),
            None => None,
        }
    }

    /// The number of items that have a rank.
    pub fn len(&self) -> (n: usize)
        ensures
            n == self.deep_view().dom().len(),
    {
        broadcast use vstd::std_specs::btree::group_btree_axioms;

        proof {
            lemma_ranks_model_len(self.ranks@);
        }
        self.ranks.len()
    }
}

/// There are as many ranks by item as by number.
pub proof fn lemma_ranks_model_len(ranks: Map<u64, i64>)
    requires
        ranks.dom().finite(),
    ensures
        ranks_model(ranks).dom().finite(),
        ranks_model(ranks).dom().len() == ranks.dom().len(),
    decreases ranks.dom().len(),
{
    if ranks.dom().len() == 0 {
        assert(ranks.dom() =~= Set::empty());
        assert(ranks_model(ranks).dom() =~= Set::empty());
    } else {
        let k = ranks.dom().choose();
        let rest = ranks.remove(k);
        lemma_ranks_model_len(rest);
        assert(ranks_model(ranks).dom() =~= ranks_model(rest).dom().insert(ItemId(k)));
    }
}

impl Decode for DayOrders {
    open spec fn decoded(v: JsonValue) -> Result<Map<ItemId, Order>, DecodeErrorView> {
        match v {
            JsonValue::Object(entries) => day_orders_of(entries),
            _ => Err(DecodeErrorView::here(Fault::Mismatch(Expected::Record))),
        }
    }

    fn decode(j: &Json) -> (r: Result<DayOrders, DecodeError>) {
        broadcast use vstd::std_specs::btree::group_btree_axioms;

        match j.as_object() {
            None => Err(DecodeError::here(Fault::Mismatch(Expected::Record))),
            Some(members) => {
                let ghost all = members_model(members@);
                let mut ranks: BTreeMap<u64, i64> = BTreeMap::new();
                let mut i: usize = 0;
                proof {
                    lemma_members_model(members@);
                    assert(all.take(0) =~= Seq::empty());
                    assert(ranks_model(ranks@) =~= Map::empty());
                }
                while i < members.len()
                    invariant
                        i <= members@.len(),
                        all.len() == members@.len(),
                        forall|k: int|
                            0 <= k < all.len() ==> #[trigger] all[k] == (
                                members@[k].key@,
                                model(members@[k].value),
                            ),
                        day_orders_of(all.take(i as int)) == Ok::<
                            Map<ItemId, Order>,
                            DecodeErrorView,
                        >(ranks_model(ranks@)),
                        j.deep_view() == JsonValue::Object(all),
                    decreases members@.len() - i,
                {
                    proof {
                        assert(all.take(i + 1).drop_last() =~= all.take(i as int));
                        assert(all.take(i + 1).last() == all[i as int]);
                    }
                    let entry = &members[i];
                    let item = match item_key(entry.key.as_str()) {
                        Some(item) => item,
                        None => {
                            proof {
                                lemma_day_orders_prefix(all, i + 1);
                            }
                            return Err(
                                DecodeError::here(Fault::BadKey).under(Step::Key(entry.key.clone())),
                            );
                        },
                    };
                    let order = match Order::decode(&entry.value) {
                        Ok(order) => order,
                        Err(e) => {
                            proof {
                                lemma_day_orders_prefix(all, i + 1);
                            }
                            return Err(e.under(Step::Key(entry.key.clone())));
                        },
                    };
                    let ghost before = ranks@;
                    ranks.insert(item, order.0);
                    assert(ranks_model(ranks@) =~= ranks_model(before).insert(ItemId(item), order));
                    i += 1;
                }
                assert(all.take(i as int) =~= all);
                Ok(DayOrders { ranks })
            },
        }
    }
}

} // verus!
