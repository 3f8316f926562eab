//! The wire format of recipe display ids and of the small recipe-book
//! packets: protocol varints, bytes and booleans.
use vstd::prelude::*;

verus! {

/// `128^n`.
pub open spec fn pow128(n: nat) -> nat
    decreases n,
{
    if n == 0 {
        1
    } else {
        128 * pow128((n - 1) as nat)
    }
}

/// The protocol varint of `x`: seven bits per byte, least significant group
/// first, the high bit set on every byte but the last.
pub open spec fn spec_varint(x: nat) -> Seq<u8>
    decreases x,
{
    if x < 128 {
        seq![x as u8]
    } else {
        seq![(x % 128 + 128) as u8] + spec_varint(x / 128)
    }
}

/// Reading a varint from the front of `bytes`, taking at most `budget`
/// bytes: each byte adds its low seven bits at the next group, and a byte
/// without the high bit (or the last byte of the budget) ends the number.
/// Gives the value and the number of bytes read, or `None` when the bytes
/// run out first.
pub open spec fn spec_read_varint(bytes: Seq<u8>, budget: nat) -> Option<(nat, nat)>
    decreases budget,
{
    if budget == 0 {
        Some((0, 0))
    } else if bytes.len() == 0 {
        None
    } else if bytes[0] < 128 {
        Some((bytes[0] as nat, 1))
    } else {
        match spec_read_varint(bytes.drop_first(), (budget - 1) as nat) {
            Some((v, n)) => Some((((bytes[0] - 128) as nat + 128 * v) as nat, n + 1)),
            None => None,
        }
    }
}

/// A 32-bit varint: at most five bytes, the value taken modulo `2^32`.
pub open spec fn spec_read_varint32(bytes: Seq<u8>) -> Option<(u32, nat)> {
    match spec_read_varint(bytes, 5) {
        Some((v, n)) => Some(((v % 0x1_0000_0000) as u32, n)),
        None => None,
    }
}

pub proof fn lemma_pow128_values()
    ensures
        pow128(0) == 1,
        pow128(1) == 128,
        pow128(2) == 16384,
        pow128(3) == 2097152,
        pow128(4) == 268435456,
        pow128(5) == 34359738368,
{
    reveal_with_fuel(pow128, 6);
}

/// A varint of a number below `128^k` takes at most `k` bytes.
pub proof fn lemma_varint_len(x: nat, k: nat)
    requires
        x < pow128(k),
        k >= 1,
    ensures
        1 <= spec_varint(x).len() <= k,
    decreases x,
{
    if x >= 128 {
        assert(pow128(1) == 128) by {
            reveal_with_fuel(pow128, 2);
        }
        assert(k >= 2);
        assert(pow128(k) == 128 * pow128((k - 1) as nat));
        assert(x / 128 < pow128((k - 1) as nat));
        lemma_varint_len(x / 128, (k - 1) as nat);
    }
}

/// Reading back the varint of `x`, followed by anything, gives `x` and the
/// varint's length, whenever the budget covers the varint.
pub proof fn lemma_varint_roundtrip(x: nat, rest: Seq<u8>, budget: nat)
    requires
        spec_varint(x).len() <= budget,
    ensures
        spec_read_varint(spec_varint(x) + rest, budget) == Some((x, spec_varint(x).len())),
    decreases x,
{
    let bytes = spec_varint(x) + rest;
    if x < 128 {
        assert(bytes[0] == x as u8);
    } else {
        assert(bytes[0] == (x % 128 + 128) as u8);
        assert(bytes.drop_first() =~= spec_varint(x / 128) + rest);
        lemma_varint_roundtrip(x / 128, rest, (budget - 1) as nat);
    }
}

/// Append the varint of `x` to `buf`.
pub fn write_varint(buf: &mut Vec<u8>, x: u32)
    ensures
        final(buf)@ == old(buf)@ + spec_varint(x as nat),
{
    let mut v = x;
    while v >= 128
        invariant
            old(buf)@ + spec_varint(x as nat) == buf@ + spec_varint(v as nat),
        decreases v,
    {
        let b = (v % 128 + 128) as u8;
        proof {
            assert(spec_varint(v as nat) == seq![b] + spec_varint((v / 128) as nat));
            assert(buf@ + spec_varint(v as nat) =~= buf@.push(b) + spec_varint((v / 128) as nat));
        }
        buf.push(b);
        v = v / 128;
    }
    proof {
        assert(spec_varint(v as nat) == seq![v as u8]);
        assert(buf@ + spec_varint(v as nat) =~= buf@.push(v as u8));
    }
    buf.push(v as u8);
}

/// Read a varint of at most `budget` bytes from `bytes` at `pos`.
fn read_varint_at(bytes: &[u8], pos: usize, budget: usize) -> (r: Option<(u64, usize)>)
    requires
        pos <= bytes@.len(),
        budget <= 5,
    ensures
        match spec_read_varint(bytes@.skip(pos as int), budget as nat) {
            Some((v, n)) => r == Some((v as u64, n as usize)) && v < pow128(budget as nat) && n
                <= budget && n <= bytes@.len() - pos,
            None => r.is_none(),
        },
    decreases budget,
{
    proof {
        lemma_pow128_values();
    }
    if budget == 0 {
        return Some((0, 0));
    }
    if pos >= bytes.len() {
        return None;
    }
    let b = bytes[pos];
    proof {
        assert(bytes@.skip(pos as int)[0] == b);
        assert(bytes@.skip(pos as int).drop_first() =~= bytes@.skip(pos + 1));
    }
    if b < 128 {
        return Some((b as u64, 1));
    }
    match read_varint_at(bytes, pos + 1, budget - 1) {
        Some((v, n)) => {
            proof {
                assert(pow128(budget as nat) == 128 * pow128((budget - 1) as nat));
                assert(v < pow128((budget - 1) as nat));
                assert(pow128((budget - 1) as nat) <= 268435456) by {
                    lemma_pow128_values();
                }
            }
            Some(((b - 128) as u64 + 128 * v, n + 1))
        },
        None => None,
    }
}

/// Read a 32-bit varint from `bytes` at `pos`: its value and the position
/// after it, or `None` when the bytes run out first.
pub fn read_varint(bytes: &[u8], pos: usize) -> (r: Option<(u32, usize)>)
    requires
        pos <= bytes@.len(),
    ensures
        match spec_read_varint32(bytes@.skip(pos as int)) {
            Some((v, n)) => r == Some((v, (pos + n) as usize)) && pos + n <= bytes@.len(),
            None => r.is_none(),
        },
{
    let ghost sp = spec_read_varint(bytes@.skip(pos as int), 5);
    proof {
        lemma_pow128_values();
    }
    match read_varint_at(bytes, pos, 5) {
        Some((v, n)) => {
            proof {
                assert(sp is Some);
                let (sv, sn) = sp->0;
                assert(sv == v && sn == n);
                assert(n <= bytes@.len() - pos);
            }
            let len = bytes.len();
            assert(pos + n <= len);
            Some(((v % 0x1_0000_0000) as u32, pos + n))
        },
        None => None,
    }
}

/// A boolean byte: 1 for true, 0 for false.
pub open spec fn spec_bool_byte(b: bool) -> u8 {
    if b {
        1
    } else {
        0
    }
}

/// A server-assigned recipe display identifier.
///
/// These identifiers are only valid for the current recipe-book generation.
#[derive(Clone, Copy, Debug, PartialEq, Eq, Hash, Structural)]
pub struct RecipeDisplayId(pub u32);

impl RecipeDisplayId {
    /// The id on the wire: a varint.
    pub open spec fn spec_encoding(self) -> Seq<u8> {
        spec_varint(self.0 as nat)
    }

    pub fn write(&self, buf: &mut Vec<u8>)
        ensures
            final(buf)@ == old(buf)@ + self.spec_encoding(),
    {
        write_varint(buf, self.0)
    }

    pub fn read(bytes: &[u8], pos: usize) -> (r: Option<(RecipeDisplayId, usize)>)
        requires
            pos <= bytes@.len(),
        ensures
            match spec_read_varint32(bytes@.skip(pos as int)) {
                Some((v, n)) => r == Some((RecipeDisplayId(v), (pos + n) as usize)) && pos + n
                    <= bytes@.len(),
                None => r.is_none(),
            },
    {
        match read_varint(bytes, pos) {
            Some((v, p)) => Some((RecipeDisplayId(v), p)),
            None => None,
        }
    }
}

/// Asks the server to fill a crafting menu with a recipe.
#[derive(Clone, Copy, Debug, PartialEq, Eq, Structural)]
pub struct ServerboundPlaceRecipe {
    pub container_id: i32,
    pub recipe: RecipeDisplayId,
    pub shift_down: bool,
}

/// Tells the server that a highlighted recipe was seen.
#[derive(Clone, Copy, Debug, PartialEq, Eq, Structural)]
pub struct ServerboundRecipeBookSeenRecipe {
    pub recipe: RecipeDisplayId,
}

/// Removes recipes from the client's recipe book.
#[derive(Clone, Debug)]
pub struct ClientboundRecipeBookRemove {
    pub recipes: Vec<RecipeDisplayId>,
}

/// A signed 32-bit number as its two's-complement bit pattern.
pub open spec fn spec_i32_bits(x: i32) -> u32 {
    (if x >= 0 {
        x as int
    } else {
        x + 0x1_0000_0000
    }) as u32
}

/// The signed number with the given bit pattern.
pub open spec fn spec_i32_from_bits(x: u32) -> i32 {
    (if x < 0x8000_0000 {
        x as int
    } else {
        x - 0x1_0000_0000
    }) as i32
}

fn i32_bits(x: i32) -> (r: u32)
    ensures
        r == spec_i32_bits(x),
{
    if x >= 0 {
        x as u32
    } else {
        (x as i64 + 0x1_0000_0000i64) as u32
    }
}

fn i32_from_bits(x: u32) -> (r: i32)
    ensures
        r == spec_i32_from_bits(x),
{
    if x < 0x8000_0000 {
        x as i32
    } else {
        (x as i64 - 0x1_0000_0000i64) as i32
    }
}

impl ServerboundPlaceRecipe {
    /// The container id as a varint of its bit pattern, the recipe id, and
    /// a boolean byte.
    pub open spec fn spec_encoding(self) -> Seq<u8> {
        spec_varint(spec_i32_bits(self.container_id) as nat) + self.recipe.spec_encoding() + seq![
            spec_bool_byte(self.shift_down),
        ]
    }

    pub fn write(&self, buf: &mut Vec<u8>)
        ensures
            final(buf)@ == old(buf)@ + self.spec_encoding(),
    {
        write_varint(buf, i32_bits(self.container_id));
        self.recipe.write(buf);
        buf.push(if self.shift_down {
            1
        } else {
            0
        });
        proof {
            assert(final(buf)@ =~= old(buf)@ + self.spec_encoding());
        }
    }

    /// The packet as its bytes.
    pub fn to_bytes(&self) -> (v: Vec<u8>)
        ensures
            v@ == self.spec_encoding(),
    {
        let mut v = Vec::new();
        self.write(&mut v);
        proof {
            assert(v@ =~= self.spec_encoding());
        }
        v
    }

    /// Read the packet from `bytes` at `pos`: two varints and a boolean byte
    /// (any non-zero byte is true). Gives the packet and the position after
    /// it, or `None` when the bytes run out first.
    pub fn read(bytes: &[u8], pos: usize) -> (r: Option<(ServerboundPlaceRecipe, usize)>)
        requires
            pos <= bytes@.len(),
        ensures
            match spec_read_varint32(bytes@.skip(pos as int)) {
                None => r.is_none(),
                Some((c, n1)) => match spec_read_varint32(bytes@.skip(pos + n1)) {
                    None => r.is_none(),
                    Some((id, n2)) => if pos + n1 + n2 < bytes@.len() {
                        r == Some(
                            (
                                ServerboundPlaceRecipe {
                                    container_id: spec_i32_from_bits(c),
                                    recipe: RecipeDisplayId(id),
                                    shift_down: bytes@[pos + n1 + n2] != 0,
                                },
                                (pos + n1 + n2 + 1) as usize,
                            ),
                        )
                    } else {
                        r.is_none()
                    },
                },
            },
    {
        let blen = bytes.len();
        let (c, p1) = match read_varint(bytes, pos) {
            Some(x) => x,
            None => return None,
        };
        proof {
            let sp = spec_read_varint32(bytes@.skip(pos as int));
            assert(sp is Some);
            let (sc, sn) = sp->0;
            assert(sc == c);
            assert(pos + sn == p1);
        }
        let (id, p2) = match RecipeDisplayId::read(bytes, p1) {
            Some(x) => x,
            None => return None,
        };
        if p2 >= bytes.len() {
            return None;
        }
        let shift_down = bytes[p2] != 0;
        Some(
            (
                ServerboundPlaceRecipe {
                    container_id: i32_from_bits(c),
                    recipe: id,
                    shift_down,
                },
                p2 + 1,
            ),
        )
    }
}

/// Reading back a written place-recipe packet, followed by anything, gives
/// the same packet and the position right after it.
pub proof fn lemma_place_recipe_roundtrip(packet: ServerboundPlaceRecipe, rest: Seq<u8>)
    ensures
        ({
            let bytes = packet.spec_encoding() + rest;
            let c = spec_varint(spec_i32_bits(packet.container_id) as nat);
            let id = packet.recipe.spec_encoding();
            &&& spec_read_varint32(bytes) == Some((spec_i32_bits(packet.container_id), c.len()))
            &&& spec_read_varint32(bytes.skip(c.len() as int)) == Some((packet.recipe.0, id.len()))
            &&& bytes[(c.len() + id.len()) as int] == spec_bool_byte(packet.shift_down)
            &&& spec_i32_from_bits(spec_i32_bits(packet.container_id)) == packet.container_id
        }),
{
    let bytes = packet.spec_encoding() + rest;
    let bits = spec_i32_bits(packet.container_id);
    let c = spec_varint(bits as nat);
    let id = packet.recipe.spec_encoding();
    lemma_pow128_values();
    lemma_varint_len(bits as nat, 5);
    lemma_varint_len(packet.recipe.0 as nat, 5);
    assert(bytes =~= c + (id + seq![spec_bool_byte(packet.shift_down)] + rest));
    lemma_varint_roundtrip(bits as nat, id + seq![spec_bool_byte(packet.shift_down)] + rest, 5);
    assert(bytes.skip(c.len() as int) =~= id + (seq![spec_bool_byte(packet.shift_down)] + rest));
    lemma_varint_roundtrip(packet.recipe.0 as nat, seq![spec_bool_byte(packet.shift_down)] + rest, 5);
}

impl ServerboundRecipeBookSeenRecipe {
    /// The recipe id.
    pub open spec fn spec_encoding(self) -> Seq<u8> {
        self.recipe.spec_encoding()
    }

    pub fn write(&self, buf: &mut Vec<u8>)
        ensures
            final(buf)@ == old(buf)@ + self.spec_encoding(),
    {
        self.recipe.write(buf)
    }

    pub fn read(bytes: &[u8], pos: usize) -> (r: Option<(ServerboundRecipeBookSeenRecipe, usize)>)
        requires
            pos <= bytes@.len(),
        ensures
            match spec_read_varint32(bytes@.skip(pos as int)) {
                Some((v, n)) => r == Some(
                    (ServerboundRecipeBookSeenRecipe { recipe: RecipeDisplayId(v) }, (pos + n) as usize),
                ),
                None => r.is_none(),
            },
    {
        match RecipeDisplayId::read(bytes, pos) {
            Some((recipe, p)) => Some((ServerboundRecipeBookSeenRecipe { recipe }, p)),
            None => None,
        }
    }
}

/// The encodings of the ids, one after another.
pub open spec fn spec_ids_encoding(ids: Seq<RecipeDisplayId>) -> Seq<u8>
    decreases ids.len(),
{
    if ids.len() == 0 {
        seq![]
    } else {
        spec_ids_encoding(ids.drop_last()) + ids.last().spec_encoding()
    }
}

impl ClientboundRecipeBookRemove {
    /// The number of ids as a varint, then each id.
    pub open spec fn spec_encoding(&self) -> Seq<u8> {
        spec_varint(self.recipes@.len() as u32 as nat) + spec_ids_encoding(self.recipes@)
    }

    pub fn write(&self, buf: &mut Vec<u8>)
        ensures
            final(buf)@ == old(buf)@ + self.spec_encoding(),
    {
        write_varint(buf, self.recipes.len() as u32);
        let ghost start = buf@;
        let mut i: usize = 0;
        while i < self.recipes.len()
            invariant
                i <= self.recipes@.len(),
                buf@ == start + spec_ids_encoding(self.recipes@.take(i as int)),
            decreases self.recipes@.len() - i,
        {
            self.recipes[i].write(buf);
            proof {
                assert(self.recipes@.take(i + 1).drop_last() =~= self.recipes@.take(i as int));
                assert(buf@ =~= start + spec_ids_encoding(self.recipes@.take(i + 1)));
            }
            i = i + 1;
        }
        proof {
            assert(self.recipes@.take(i as int) =~= self.recipes@);
            assert(buf@ =~= old(buf)@ + self.spec_encoding());
        }
    }
}

} // verus!
