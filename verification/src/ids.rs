//! Numbering of the clients that connect to a broker.

use atomic_counter::RelaxedCounter;
use vstd::prelude::*;

use crate::trusted::{
    relaxed_count,
    relaxed_counter_get,
    relaxed_counter_inc,
    relaxed_counter_new,
    wrapping_inc,
};

verus! {

/// The id that the client numbered `n` (counting from 1) receives: ids are
/// one byte wide and wrap around.
pub open spec fn client_id_for(n: int) -> u8 {
    (n % 256) as u8
}

/// Hands out the ids of new clients: 1, 2, ... 255, 0, 1, ...
pub struct ClientIds {
    counter: RelaxedCounter,
}

impl ClientIds {
    /// How many ids have been handed out, modulo `usize::MAX + 1`.
    pub closed spec fn count(&self) -> usize {
        relaxed_count(self.counter)
    }

    /// A numbering that has handed out no id yet.
    pub fn new() -> (ids: Self)
        ensures
            ids.count() == 0,
    {
        ClientIds { counter: relaxed_counter_new(0) }
    }

    /// The id of the next client: the count after one more increment, cut to
    /// its lowest byte.
    pub fn next_id(&mut self) -> (id: u8)
        ensures
            final(self).count() == wrapping_inc(old(self).count()),
            id == client_id_for(old(self).count() + 1),
            id as int == (old(self).count() + 1) % 256,
    {
        relaxed_counter_inc(&mut self.counter);
        let count = relaxed_counter_get(&mut self.counter);
        let id = count as u8;
        assert(count as u8 == count % 256) by (bit_vector);
        proof {
            if old(self).count() == usize::MAX {
                assert(count == 0);
                assert((usize::MAX as int + 1) % 256 == 0) by {
                    assert(usize::MAX == 0xffff_ffff || usize::MAX == 0xffff_ffff_ffff_ffff);
                }
            }
        }
        id
    }
}

/// The client numbered `n` gets the id `n` modulo 256: the numbers 1 to 255
/// keep their value, 256 becomes 0, 257 becomes 1, and so on.
pub proof fn lemma_client_id_is_number_mod_256(n: int)
    ensures
        client_id_for(n) as int == n % 256,
        0 <= n < 256 ==> client_id_for(n) as int == n,
        client_id_for(n + 256) == client_id_for(n),
{
}

/// One increment of the count adds one, except that `usize::MAX` wraps to 0.
pub proof fn lemma_wrapping_inc(count: usize)
    ensures
        wrapping_inc(count) as int == (count as int + 1) % (usize::MAX as int + 1),
        count < usize::MAX ==> wrapping_inc(count) as int == count as int + 1,
{
    let m: int = usize::MAX as int + 1;
    if count == usize::MAX {
        assert(m % m == 0) by (nonlinear_arith)
            requires
                m > 0,
        ;
    } else {
        vstd::arithmetic::div_mod::lemma_small_mod((count + 1) as nat, m as nat);
    }
}

/// Any 256 clients numbered one after the other get pairwise distinct ids.
pub proof fn lemma_consecutive_ids_distinct(a: int, b: int)
    requires
        a < b < a + 256,
    ensures
        client_id_for(a) != client_id_for(b),
{
}

} // verus!
