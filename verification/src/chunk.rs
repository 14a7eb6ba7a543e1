//! Positions of chunks inside a region file.
use vstd::prelude::*;
use crate::text::{
    decimal, decimal_is_digits, decimal_is_injective, decimal_of, digits_end_where_they_end,
};

verus! {

/// A region holds `REGION_SIDE` by `REGION_SIDE` chunks.
pub const REGION_SIDE: u8 = 32;

/// How many chunks a region holds.
pub const REGION_CHUNKS: usize = 1024;

/// The x coordinate of the chunk that comes `index`-th in storage order.
pub open spec fn nth_x(index: int) -> int {
    index % 32
}

/// The z coordinate of the chunk that comes `index`-th in storage order:
/// rows of equal z lie one behind the other.
pub open spec fn nth_z(index: int) -> int {
    index / 32
}

/// The location of a chunk within a region file.
#[derive(Copy, Clone, Debug, PartialEq, Eq, Structural)]
pub struct RelativeChunkPos(u8, u8);

impl RelativeChunkPos {
    /// The x coordinate.
    pub closed spec fn spec_x(self) -> int {
        self.0 as int
    }

    /// The z coordinate.
    pub closed spec fn spec_z(self) -> int {
        self.1 as int
    }

    /// The position as it is shown to people.
    pub open spec fn coordinate_text(self) -> Seq<char> {
        "("@ + decimal_of(self.spec_x() as nat) + ", "@ + decimal_of(self.spec_z() as nat) + ")"@
    }

    /// Every position that was made by this module lies inside a region.
    #[verifier::type_invariant]
    spec fn well_formed(self) -> bool {
        self.0 < 32 && self.1 < 32
    }

    /// Two positions with the same coordinates are the same position.
    pub proof fn determined_by_coordinates(a: RelativeChunkPos, b: RelativeChunkPos)
        requires
            a.spec_x() == b.spec_x(),
            a.spec_z() == b.spec_z(),
        ensures
            a == b,
    {
    }

    /// Create a new [`RelativeChunkPos`] from a pair of coordinates.
    ///
    /// Both coordinates must be inside the bounds of a region file.
    pub fn new(x: u32, z: u32) -> (r: Self)
        requires
            x < REGION_SIDE,
            z < REGION_SIDE,
        ensures
            r.spec_x() == x,
            r.spec_z() == z,
    {
        RelativeChunkPos(x as u8, z as u8)
    }

    /// The x coordinate of the chunk relative to the containing region.
    pub fn x(&self) -> (r: usize)
        ensures
            r == self.spec_x(),
            r < REGION_SIDE,
    {
        proof {
            use_type_invariant(*self);
        }
        self.0 as usize
    }

    /// The z coordinate of the chunk relative to the containing region.
    pub fn z(&self) -> (r: usize)
        ensures
            r == self.spec_z(),
            r < REGION_SIDE,
    {
        proof {
            use_type_invariant(*self);
        }
        self.1 as usize
    }

    /// All valid [`RelativeChunkPos`], always in the same order.
    ///
    /// Going over z first reflects how the region files are stored.
    pub fn all() -> (r: Vec<Self>)
        ensures
            r@.len() == REGION_CHUNKS,
            forall|i: int|
                0 <= i < REGION_CHUNKS ==> {
                    &&& (#[trigger] r@[i]).spec_x() == nth_x(i)
                    &&& r@[i].spec_z() == nth_z(i)
                },
    {
        let mut positions: Vec<Self> = Vec::new();
        let mut z: u8 = 0;
        while z < 32
            invariant
                z <= 32,
                positions@.len() == 32 * z,
                forall|i: int|
                    0 <= i < positions@.len() ==> {
                        &&& (#[trigger] positions@[i]).spec_x() == nth_x(i)
                        &&& positions@[i].spec_z() == nth_z(i)
                    },
            decreases 32 - z,
        {
            let mut x: u8 = 0;
            while x < 32
                invariant
                    z < 32,
                    x <= 32,
                    positions@.len() == 32 * z + x,
                    forall|i: int|
                        0 <= i < positions@.len() ==> {
                            &&& (#[trigger] positions@[i]).spec_x() == nth_x(i)
                            &&& positions@[i].spec_z() == nth_z(i)
                        },
                decreases 32 - x,
            {
                positions.push(RelativeChunkPos(x, z));
                x += 1;
            }
            z += 1;
        }
        positions
    }

    /// The position as it is shown to people: `(x, z)`.
    pub fn to_text(&self) -> (r: String)
        ensures
            r@ == self.coordinate_text(),
    {
        let mut text = "(".to_owned();
        text.append(decimal(self.0 as u64).as_str());
        text.append(", ");
        text.append(decimal(self.1 as u64).as_str());
        text.append(")");
        text
    }
}

/// [`RelativeChunkPos::all`] names every chunk of a region exactly once: the chunk at `(x, z)`
/// has one index there, and it is the only one with these coordinates.
pub proof fn every_chunk_has_one_index(x: int, z: int)
    requires
        0 <= x < REGION_SIDE,
        0 <= z < REGION_SIDE,
    ensures
        0 <= x + 32 * z < REGION_CHUNKS,
        nth_x(x + 32 * z) == x,
        nth_z(x + 32 * z) == z,
        forall|i: int|
            0 <= i < REGION_CHUNKS && #[trigger] nth_x(i) == x && nth_z(i) == z ==> i == x + 32 * z,
{
}

/// The coordinates of a position are those that it was made of.
pub proof fn position_round_trip(x: u32, z: u32, pos: RelativeChunkPos, read_x: usize, read_z: usize)
    requires
        call_ensures(RelativeChunkPos::new, (x, z), pos),
        call_ensures(RelativeChunkPos::x, (&pos,), read_x),
        call_ensures(RelativeChunkPos::z, (&pos,), read_z),
    ensures
        read_x == x,
        read_z == z,
{
}

/// The chunk at `(x, z)` comes exactly once among all of them: behind those with a lower `z`, and
/// behind those with the same `z` and a lower `x`.
pub proof fn all_positions_come_in_storage_order(r: Vec<RelativeChunkPos>, i: int, j: int)
    requires
        call_ensures(RelativeChunkPos::all, (), r),
        0 <= i < j < r@.len(),
    ensures
        r@.len() == 32 * 32,
        0 <= r@[i].spec_x() < 32,
        0 <= r@[i].spec_z() < 32,
        0 <= r@[j].spec_x() < 32,
        0 <= r@[j].spec_z() < 32,
        r@[i].spec_z() < r@[j].spec_z() || r@[i].spec_z() == r@[j].spec_z() && r@[i].spec_x()
            < r@[j].spec_x(),
{
}

/// Different positions are shown to people differently.
pub proof fn positions_are_told_apart(
    a: RelativeChunkPos,
    b: RelativeChunkPos,
    a_text: String,
    b_text: String,
)
    requires
        call_ensures(RelativeChunkPos::to_text, (&a,), a_text),
        call_ensures(RelativeChunkPos::to_text, (&b,), b_text),
        a != b,
    ensures
        a_text@ != b_text@,
{
    if a_text@ == b_text@ {
        reveal_strlit("(");
        reveal_strlit(", ");
        reveal_strlit(")");
        let ax = decimal_of(a.spec_x() as nat);
        let az = decimal_of(a.spec_z() as nat);
        let bx = decimal_of(b.spec_x() as nat);
        let bz = decimal_of(b.spec_z() as nat);
        decimal_is_digits(a.spec_x() as nat);
        decimal_is_digits(a.spec_z() as nat);
        decimal_is_digits(b.spec_x() as nat);
        decimal_is_digits(b.spec_z() as nat);
        assert(a_text@.skip(1) =~= ax + (", "@ + az + ")"@));
        assert(b_text@.skip(1) =~= bx + (", "@ + bz + ")"@));
        digits_end_where_they_end(ax, bx, ", "@ + az + ")"@, ", "@ + bz + ")"@);
        assert((", "@ + az + ")"@).skip(2) =~= az + ")"@);
        assert((", "@ + bz + ")"@).skip(2) =~= bz + ")"@);
        digits_end_where_they_end(az, bz, ")"@, ")"@);
        decimal_is_injective(a.spec_x() as nat, b.spec_x() as nat);
        decimal_is_injective(a.spec_z() as nat, b.spec_z() as nat);
        RelativeChunkPos::determined_by_coordinates(a, b);
    }
}

} // verus!
