use std::collections::BTreeMap;
use vstd::prelude::*;

verus! {

broadcast use vstd::std_specs::btree::group_btree_axioms;

/// The largest address of the store.
pub const MAX_ADDRESS: u64 = 18446744073709551615;

/// Whether `a` is an address of the store.
pub open spec fn is_address(a: int) -> bool {
    0 <= a <= MAX_ADDRESS
}

/// The store as a program image leaves it: the image at its own addresses, zero elsewhere.
pub open spec fn image_cells(image: Seq<i64>) -> Map<int, i64> {
    Map::new(|a: int| is_address(a), |a: int| if a < image.len() { image[a] } else { 0i64 })
}

/// The value at `a` once `written` has been stored over `image`.
pub open spec fn cell_of(image: Seq<i64>, written: Map<u64, i64>, a: int) -> i64 {
    if is_address(a) && written.contains_key(a as u64) {
        written[a as u64]
    } else if 0 <= a < image.len() {
        image[a]
    } else {
        0i64
    }
}

/// An integer store indexed by every `u64` address.
///
/// The program image is kept as it was loaded; later writes are held in an
/// ordered map that takes precedence over it. An address that was never
/// written and lies beyond the image holds zero.
#[derive(Debug, Clone)]
pub struct Memory {
    image: Vec<i64>,
    written: BTreeMap<u64, i64>,
}

impl View for Memory {
    type V = Map<int, i64>;

    /// Every address mapped to the value it holds.
    closed spec fn view(&self) -> Map<int, i64> {
        Map::new(|a: int| is_address(a), |a: int| cell_of(self.image@, self.written@, a))
    }
}

impl Memory {
    /// A store that holds `image` from address zero on.
    pub fn new(image: Vec<i64>) -> (r: Memory)
        ensures
            r@ == image_cells(image@),
    {
        let r = Memory { image, written: BTreeMap::new() };
        assert(r@ =~= image_cells(image@));
        r
    }

    /// The value at `address`; zero where nothing was ever stored.
    pub fn read(&self, address: u64) -> (r: i64)
        ensures
            r == self@[address as int],
    {
        match self.written.get(&address) {
            Some(v) => *v,
            None => {
                if (address as u128) < (self.image.len() as u128) {
                    self.image[address as usize]
                } else {
                    0
                }
            },
        }
    }

    /// Stores `value` at `address`; the store grows as needed.
    pub fn write(&mut self, address: u64, value: i64)
        ensures
            final(self)@ == old(self)@.insert(address as int, value),
    {
        self.written.insert(address, value);
        assert(final(self)@ =~= old(self)@.insert(address as int, value));
    }
}

/// The store's domain is exactly the addresses.
pub proof fn lemma_domain(m: &Memory)
    ensures
        forall|a: int| #[trigger] m@.contains_key(a) <==> is_address(a),
{
}

/// A value written at any address is read back there; every other address keeps its value.
pub proof fn lemma_write_then_read(before: Memory, after: Memory, address: u64, value: i64, other: u64)
    requires
        after@ == before@.insert(address as int, value),
        other != address,
    ensures
        after@[address as int] == value,
        after@[other as int] == before@[other as int],
{
}

/// An address that lies beyond the image and was never written holds zero.
pub proof fn lemma_unwritten_is_zero(image: Seq<i64>, address: u64)
    requires
        address >= image.len(),
    ensures
        image_cells(image)[address as int] == 0,
{
}

} // verus!
