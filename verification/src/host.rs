//! The host's collections, as the contracts use them.
//!
//! The lists and maps of `soroban_sdk` live inside the host and are handled through an `Env`.
//! Everything that this module says of them is believed rather than proved. A host that runs out
//! of the resources it meters ends the whole call; no contract here speaks of that.

use vstd::prelude::*;

use crate::ident;

verus! {

/// `soroban_sdk::Env`: a handle on the host, in which lists and maps are made.
#[verifier::external_type_specification]
#[verifier::external_body]
pub struct ExEnv(soroban_sdk::Env);

/// `soroban_sdk::Symbol`: the type of the keys of the host's maps.
#[verifier::external_type_specification]
#[verifier::external_body]
pub struct ExSymbol(soroban_sdk::Symbol);

/// `soroban_sdk::Vec`: a list of the host.
#[verifier::external_type_specification]
#[verifier::external_body]
#[verifier::reject_recursive_types(T)]
pub struct ExVec<T>(soroban_sdk::Vec<T>);

/// `soroban_sdk::Map`: a map of the host.
#[verifier::external_type_specification]
#[verifier::external_body]
#[verifier::reject_recursive_types(K)]
#[verifier::reject_recursive_types(V)]
pub struct ExMap<K, V>(soroban_sdk::Map<K, V>);

/// The policy ids that a host list holds, in order.
pub uninterp spec fn id_list(list: soroban_sdk::Vec<u64>) -> Seq<u64>;

/// Whether every item of a host list is an integer that reads back as a `u64`.
pub uninterp spec fn ids_readable(list: soroban_sdk::Vec<u64>) -> bool;

/// The address keys that a host list holds, in order.
pub uninterp spec fn key_list(list: soroban_sdk::Vec<(bool, u128, u128)>) -> Seq<
    (bool, u128, u128),
>;

/// Whether every item of a host list reads back as an address key.
pub uninterp spec fn keys_readable(list: soroban_sdk::Vec<(bool, u128, u128)>) -> bool;

/// The figures that a host map holds, by the spelling of their names.
pub uninterp spec fn figure_map(figures: soroban_sdk::Map<soroban_sdk::Symbol, i128>) -> Map<
    Seq<char>,
    i128,
>;

/// The times that a host map holds, by the spelling of their names.
pub uninterp spec fn time_map(times: soroban_sdk::Map<soroban_sdk::Symbol, i64>) -> Map<
    Seq<char>,
    i64,
>;

/// `soroban_sdk::Vec::new`: a list without items.
#[verifier::external_body]
pub(crate) fn new_id_list(env: &soroban_sdk::Env) -> (list: soroban_sdk::Vec<u64>)
    ensures
        id_list(list) == Seq::<u64>::empty(),
        ids_readable(list),
{
    soroban_sdk::Vec::new(env)
}

/// `soroban_sdk::Vec::push_back`: puts one more item behind the others. The host refuses to grow
/// a list past `u32::MAX` items.
#[verifier::external_body]
pub(crate) fn push_id(list: &mut soroban_sdk::Vec<u64>, id: u64)
    requires
        id_list(*old(list)).len() < u32::MAX,
    ensures
        id_list(*final(list)) == id_list(*old(list)).push(id),
        ids_readable(*final(list)) == ids_readable(*old(list)),
{
    list.push_back(id);
}

/// `soroban_sdk::Vec::len`: how many items the list holds.
#[verifier::external_body]
pub(crate) fn count_ids(list: &soroban_sdk::Vec<u64>) -> (len: u32)
    ensures
        len == id_list(*list).len(),
{
    list.len()
}

/// `soroban_sdk::Vec::get`: the item at a position, or `None` past the end. It panics on an item
/// that does not read back as a `u64`.
#[verifier::external_body]
pub(crate) fn get_id(list: &soroban_sdk::Vec<u64>, i: u32) -> (id: Option<u64>)
    requires
        ids_readable(*list),
    ensures
        id == (if i < id_list(*list).len() {
            Some(id_list(*list)[i as int])
        } else {
            None
        }),
{
    list.get(i)
}

/// `soroban_sdk::Vec::clone`: a second handle on a list with the same items. A later change
/// through one handle makes a new host object and is not seen through the other.
#[verifier::external_body]
pub(crate) fn clone_id_list(list: &soroban_sdk::Vec<u64>) -> (copy: soroban_sdk::Vec<u64>)
    ensures
        id_list(copy) == id_list(*list),
        ids_readable(copy) == ids_readable(*list),
{
    list.clone()
}

/// `soroban_sdk::Vec::new`: a list without items.
#[verifier::external_body]
pub(crate) fn new_key_list(env: &soroban_sdk::Env) -> (list: soroban_sdk::Vec<(bool, u128, u128)>)
    ensures
        key_list(list) == Seq::<(bool, u128, u128)>::empty(),
        keys_readable(list),
{
    soroban_sdk::Vec::new(env)
}

/// `soroban_sdk::Vec::push_back`: puts one more item behind the others. The host refuses to grow
/// a list past `u32::MAX` items.
#[verifier::external_body]
pub(crate) fn push_key(list: &mut soroban_sdk::Vec<(bool, u128, u128)>, key: (bool, u128, u128))
    requires
        key_list(*old(list)).len() < u32::MAX,
    ensures
        key_list(*final(list)) == key_list(*old(list)).push(key),
        keys_readable(*final(list)) == keys_readable(*old(list)),
{
    list.push_back(key);
}

/// `soroban_sdk::Vec::len`: how many items the list holds.
#[verifier::external_body]
pub(crate) fn count_keys(list: &soroban_sdk::Vec<(bool, u128, u128)>) -> (len: u32)
    ensures
        len == key_list(*list).len(),
{
    list.len()
}

/// `soroban_sdk::Vec::get`: the item at a position, or `None` past the end. It panics on an item
/// that does not read back as such a triple.
#[verifier::external_body]
pub(crate) fn get_key(list: &soroban_sdk::Vec<(bool, u128, u128)>, i: u32) -> (key: Option<
    (bool, u128, u128),
>)
    requires
        keys_readable(*list),
    ensures
        key == (if i < key_list(*list).len() {
            Some(key_list(*list)[i as int])
        } else {
            None
        }),
{
    list.get(i)
}

/// `soroban_sdk::Vec::clone`: a second handle on a list with the same items. A later change
/// through one handle makes a new host object and is not seen through the other.
#[verifier::external_body]
pub(crate) fn clone_key_list(list: &soroban_sdk::Vec<(bool, u128, u128)>) -> (copy:
    soroban_sdk::Vec<(bool, u128, u128)>)
    ensures
        key_list(copy) == key_list(*list),
        keys_readable(copy) == keys_readable(*list),
{
    list.clone()
}

/// `soroban_sdk::Map::new`: a map without entries.
#[verifier::external_body]
pub(crate) fn new_figure_map(env: &soroban_sdk::Env) -> (figures: soroban_sdk::Map<
    soroban_sdk::Symbol,
    i128,
>)
    ensures
        figure_map(figures).is_empty(),
{
    soroban_sdk::Map::new(env)
}

/// `soroban_sdk::Map::set`, under the symbol that `soroban_sdk::Symbol::new` makes of `name`:
/// puts the value in place of what the name held. `Symbol::new` panics on a text that is no
/// symbol, and the host refuses to grow a map past `u32::MAX` entries.
#[verifier::external_body]
pub(crate) fn set_figure(
    figures: &mut soroban_sdk::Map<soroban_sdk::Symbol, i128>,
    name: &str,
    value: i128,
)
    requires
        ident::is_ident(name@),
        figure_map(*old(figures)).dom().finite(),
        figure_map(*old(figures)).dom().len() < u32::MAX,
    ensures
        figure_map(*final(figures)) == figure_map(*old(figures)).insert(name@, value),
{
    let symbol = soroban_sdk::Symbol::new(figures.env(), name);
    figures.set(symbol, value);
}

/// `soroban_sdk::Map::new`: a map without entries.
#[verifier::external_body]
pub(crate) fn new_time_map(env: &soroban_sdk::Env) -> (times: soroban_sdk::Map<
    soroban_sdk::Symbol,
    i64,
>)
    ensures
        time_map(times).is_empty(),
{
    soroban_sdk::Map::new(env)
}

/// `soroban_sdk::Map::set`, under the symbol that `soroban_sdk::Symbol::new` makes of `name`:
/// puts the value in place of what the name held. `Symbol::new` panics on a text that is no
/// symbol, and the host refuses to grow a map past `u32::MAX` entries.
#[verifier::external_body]
pub(crate) fn set_time(
    times: &mut soroban_sdk::Map<soroban_sdk::Symbol, i64>,
    name: &str,
    value: i64,
)
    requires
        ident::is_ident(name@),
        time_map(*old(times)).dom().finite(),
        time_map(*old(times)).dom().len() < u32::MAX,
    ensures
        time_map(*final(times)) == time_map(*old(times)).insert(name@, value),
{
    let symbol = soroban_sdk::Symbol::new(times.env(), name);
    times.set(symbol, value);
}

} // verus!
