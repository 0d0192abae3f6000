//! Lists of policy ids and of addresses, kept in host lists.

use vstd::prelude::*;

use crate::address::Address;
use crate::host;
use crate::host::{
    clone_id_list, clone_key_list, count_ids, count_keys, get_id, get_key, new_id_list,
    new_key_list, push_id, push_key,
};
use crate::seqs;

verus! {

/// A list of policy ids.
pub struct IdList {
    list: soroban_sdk::Vec<u64>,
}

impl View for IdList {
    type V = Seq<u64>;

    closed spec fn view(&self) -> Seq<u64> {
        host::id_list(self.list)
    }
}

impl IdList {
    #[verifier::type_invariant]
    spec fn well_formed(self) -> bool {
        host::ids_readable(self.list)
    }

    /// A list without ids.
    pub fn new(env: &soroban_sdk::Env) -> (ids: IdList)
        ensures
            ids@ == Seq::<u64>::empty(),
    {
        IdList { list: new_id_list(env) }
    }

    /// The list with `id` behind its last item.
    pub fn push_back(self, id: u64) -> (ids: IdList)
        requires
            self@.len() < u32::MAX,
        ensures
            ids@ == self@.push(id),
    {
        proof {
            use_type_invariant(&self);
        }
        let mut list = self.list;
        push_id(&mut list, id);
        IdList { list }
    }

    /// How many ids the list holds.
    pub fn len(&self) -> (len: u32)
        ensures
            len == self@.len(),
    {
        count_ids(&self.list)
    }

    /// The id at position `i`.
    pub fn get(&self, i: u32) -> (id: Option<u64>)
        ensures
            id == (if i < self@.len() {
                Some(self@[i as int])
            } else {
                None
            }),
    {
        proof {
            use_type_invariant(self);
        }
        get_id(&self.list, i)
    }

    /// The host list that holds the ids.
    pub fn host_list(&self) -> (list: &soroban_sdk::Vec<u64>)
        ensures
            host::id_list(*list) == self@,
    {
        &self.list
    }
}

impl Clone for IdList {
    fn clone(&self) -> (copy: Self)
        ensures
            copy@ == self@,
    {
        proof {
            use_type_invariant(self);
        }
        IdList { list: clone_id_list(&self.list) }
    }
}

/// The triple that stands for an address in a host list.
spec fn key_of(address: Address) -> (bool, u128, u128) {
    (address.contract, address.high, address.low)
}

/// The address that a triple in a host list stands for.
spec fn of_key(key: (bool, u128, u128)) -> Address {
    Address { contract: key.0, high: key.1, low: key.2 }
}

/// Whether an item is another than `address`.
pub open spec fn other_than(address: Address) -> spec_fn(Address) -> bool {
    |item: Address| item != address
}

/// The items of `addresses` other than `address`, in order.
pub open spec fn excluding(addresses: Seq<Address>, address: Address) -> Seq<Address> {
    addresses.filter(other_than(address))
}

/// What is left is everything but the address, and it is shorter exactly where the address was
/// there.
pub proof fn lemma_excluding(addresses: Seq<Address>, address: Address)
    ensures
        forall|x: Address| #[trigger]
            excluding(addresses, address).contains(x) <==> addresses.contains(x) && x != address,
        addresses.no_duplicates() ==> excluding(addresses, address).no_duplicates(),
        addresses.contains(address) <==> excluding(addresses, address).len() != addresses.len(),
{
    let keep = other_than(address);
    seqs::lemma_filter_holds(addresses, keep);
    seqs::lemma_filter_shortens(addresses, keep);
    if addresses.contains(address) {
        let i = choose|i: int| 0 <= i < addresses.len() && addresses[i] == address;
        assert(!keep(addresses[i]));
    }
}

/// A list of addresses.
pub struct AddressList {
    list: soroban_sdk::Vec<(bool, u128, u128)>,
}

impl View for AddressList {
    type V = Seq<Address>;

    closed spec fn view(&self) -> Seq<Address> {
        host::key_list(self.list).map_values(|key: (bool, u128, u128)| of_key(key))
    }
}

impl AddressList {
    #[verifier::type_invariant]
    spec fn well_formed(self) -> bool {
        host::keys_readable(self.list)
    }

    /// A list without addresses.
    pub fn new(env: &soroban_sdk::Env) -> (addresses: AddressList)
        ensures
            addresses@ == Seq::<Address>::empty(),
    {
        let addresses = AddressList { list: new_key_list(env) };
        assert(addresses@ =~= Seq::<Address>::empty());
        addresses
    }

    /// The list with `address` behind its last item.
    pub fn push_back(self, address: Address) -> (addresses: AddressList)
        requires
            self@.len() < u32::MAX,
        ensures
            addresses@ == self@.push(address),
    {
        proof {
            use_type_invariant(&self);
        }
        let ghost before = self@;
        let mut list = self.list;
        push_key(&mut list, (address.contract, address.high, address.low));
        let addresses = AddressList { list };
        assert(addresses@ =~= before.push(address));
        addresses
    }

    /// How many addresses the list holds.
    pub fn len(&self) -> (len: u32)
        ensures
            len == self@.len(),
    {
        count_keys(&self.list)
    }

    /// The address at position `i`.
    pub fn get(&self, i: u32) -> (address: Option<Address>)
        ensures
            address == (if i < self@.len() {
                Some(self@[i as int])
            } else {
                None
            }),
    {
        proof {
            use_type_invariant(self);
        }
        match get_key(&self.list, i) {
            Some(key) => Some(Address { contract: key.0, high: key.1, low: key.2 }),
            None => None,
        }
    }

    /// Whether the list holds `address`.
    pub fn contains(&self, address: &Address) -> (r: bool)
        ensures
            r == self@.contains(*address),
    {
        let len: u32 = self.len();
        let mut i: u32 = 0;
        while i < len
            invariant
                i <= len,
                len == self@.len(),
                forall|j: int| 0 <= j < i ==> #[trigger] self@[j] != *address,
            decreases len - i,
        {
            if let Some(item) = self.get(i) {
                if item == *address {
                    assert(self@[i as int] == *address);
                    return true;
                }
            }
            i += 1;
        }
        false
    }

    /// The items other than `address`, in order.
    pub fn without(&self, env: &soroban_sdk::Env, address: &Address) -> (rest: AddressList)
        ensures
            rest@ == excluding(self@, *address),
    {
        let len: u32 = self.len();
        let mut rest = AddressList::new(env);
        let mut i: u32 = 0;
        assert(self@.take(0) =~= Seq::<Address>::empty());
        while i < len
            invariant
                i <= len,
                len == self@.len(),
                rest@ == excluding(self@.take(i as int), *address),
                rest@.len() <= i,
            decreases len - i,
        {
            reveal(Seq::filter);
            assert(self@.take(i + 1).drop_last() =~= self@.take(i as int));
            if let Some(item) = self.get(i) {
                if item != *address {
                    rest = rest.push_back(item);
                }
            }
            i += 1;
        }
        assert(self@.take(len as int) =~= self@);
        rest
    }

    /// The addresses as a plain vector.
    pub fn to_vec(&self) -> (addresses: Vec<Address>)
        ensures
            addresses@ == self@,
    {
        let len: u32 = self.len();
        let mut addresses: Vec<Address> = Vec::new();
        let mut i: u32 = 0;
        while i < len
            invariant
                i <= len,
                len == self@.len(),
                addresses@ =~= self@.take(i as int),
            decreases len - i,
        {
            if let Some(item) = self.get(i) {
                addresses.push(item);
            }
            i += 1;
        }
        assert(self@.take(len as int) =~= self@);
        addresses
    }
}

impl Clone for AddressList {
    fn clone(&self) -> (copy: Self)
        ensures
            copy@ == self@,
    {
        proof {
            use_type_invariant(self);
        }
        AddressList { list: clone_key_list(&self.list) }
    }
}

} // verus!
