use vstd::prelude::*;
use rand::Rng;
use vstd::arithmetic::div_mod::lemma_fundamental_div_mod_converse;

verus! {

/// The random generator of the calling thread.
#[verifier::external_type_specification]
#[verifier::external_body]
pub struct ExThreadRng(rand::rngs::ThreadRng);

/// Side of the square background texture, in pixels.
pub const BACKGROUND_TEXTURE_SIZE: usize = 256;

/// Side of a square block of pixels that share one shade.
pub const BACKGROUND_BLOCK_SIZE: usize = 4;

/// Number of blocks in the texture (64 by 64).
pub const BACKGROUND_BLOCKS: usize = 4096;

/// Number of bytes of the RGBA texture.
pub const BACKGROUND_BYTES: usize = 262144;

/// Shades are drawn from `0..BACKGROUND_SHADES`.
pub const BACKGROUND_SHADES: u8 = 15;

/// Offset added to every drawn shade.
pub const BACKGROUND_BASE: u8 = 25;

/// The block that pixel `p` (counted row by row) lies in; blocks are counted row by row too.
pub open spec fn block_of_pixel(p: int) -> int {
    ((p / 256) / 4) * 64 + (p % 256) / 4
}

/// Byte `i` of the texture drawn from the block shades `shades`: red, green and blue of a pixel
/// are its block's shade plus the base, alpha is opaque.
pub open spec fn background_byte(shades: Seq<u8>, i: int) -> int {
    if i % 4 == 3 {
        255
    } else {
        shades[block_of_pixel(i / 4)] + 25
    }
}

/// Shades that the texture can be drawn from: one per block, each below `BACKGROUND_SHADES`.
pub open spec fn valid_shades(shades: Seq<u8>) -> bool {
    &&& shades.len() == 4096
    &&& forall|j: int| 0 <= j < shades.len() ==> #[trigger] shades[j] < 15
}

/// The texture drawn from `shades`, byte for byte.
pub open spec fn is_background_of(data: Seq<u8>, shades: Seq<u8>) -> bool {
    &&& data.len() == 262144
    &&& forall|i: int| 0 <= i < 262144 ==> #[trigger] data[i] == background_byte(shades, i)
}

/// Calls `rand::thread_rng`: the generator of the calling thread, seeded by the system.
#[verifier::external_body]
fn thread_rng() -> rand::rngs::ThreadRng {
    rand::thread_rng()
}

/// Calls `Rng::gen_range` with `0..high` on a `u8`: the result lies in that range (rand panics on
/// an empty range, so `high` is positive). Which value comes out is left to chance.
#[verifier::external_body]
fn gen_below(rng: &mut rand::rngs::ThreadRng, high: u8) -> (r: u8)
    requires
        0 < high,
    ensures
        r < high,
{
    rng.gen_range(0..high)
}

proof fn lemma_block_in_range(p: int)
    requires
        0 <= p < 65536,
    ensures
        0 <= block_of_pixel(p) < 4096,
{
    assert(0 <= p / 256 < 256) by (nonlinear_arith)
        requires
            0 <= p < 65536,
    ;
    assert(0 <= p % 256 < 256) by (nonlinear_arith)
        requires
            0 <= p,
    ;
    let a = p / 256;
    let b = p % 256;
    assert(0 <= a / 4 < 64) by (nonlinear_arith)
        requires
            0 <= a < 256,
    ;
    assert(0 <= b / 4 < 64) by (nonlinear_arith)
        requires
            0 <= b < 256,
    ;
}

/// Draws one shade per block of the background texture, row by row.
pub fn draw_background_shades() -> (shades: Vec<u8>)
    ensures
        valid_shades(shades@),
{
    let mut rng = thread_rng();
    let mut shades: Vec<u8> = Vec::new();
    let mut k: usize = 0;
    while k < BACKGROUND_BLOCKS
        invariant
            k <= 4096,
            shades.len() == k,
            forall|j: int| 0 <= j < k ==> #[trigger] shades@[j] < 15,
        decreases 4096 - k,
    {
        let v = gen_below(&mut rng, BACKGROUND_SHADES);
        shades.push(v);
        k = k + 1;
    }
    shades
}

/// The RGBA bytes of the 256 by 256 background texture whose 4 by 4 blocks have the given
/// shades.
pub fn background_pixels(shades: &Vec<u8>) -> (data: Vec<u8>)
    requires
        valid_shades(shades@),
    ensures
        is_background_of(data@, shades@),
{
    let mut data: Vec<u8> = Vec::new();
    let mut i: usize = 0;
    while i < BACKGROUND_BYTES
        invariant
            i <= 262144,
            data.len() == i,
            valid_shades(shades@),
            forall|k: int| 0 <= k < i ==> #[trigger] data@[k] == background_byte(shades@, k),
        decreases 262144 - i,
    {
        let p = i / 4;
        let c = i % 4;
        if c == 3 {
            data.push(255);
        } else {
            proof {
                lemma_block_in_range(p as int);
            }
            let block = (p / 256) / 4 * 64 + (p % 256) / 4;
            let shade = shades[block];
            data.push(shade + BACKGROUND_BASE);
        }
        i = i + 1;
    }
    data
}

/// The bytes of a freshly drawn background texture: gray pixels of shades `25..40` in 4 by 4
/// blocks, opaque. The shades are drawn by chance.
pub fn background_texture_data() -> (data: Vec<u8>)
    ensures
        exists|shades: Seq<u8>| valid_shades(shades) && is_background_of(data@, shades),
{
    let shades = draw_background_shades();
    let data = background_pixels(&shades);
    assert(valid_shades(shades@) && is_background_of(data@, shades@));
    data
}

/// The background texture of a drawing context, by the id of the texture made for it: made on
/// first use (a negative id means none yet) and kept.
pub struct BackgroundTexture {
    texture_id: i32,
}

impl BackgroundTexture {
    /// The id of the texture, negative while none was made.
    pub closed spec fn id_spec(&self) -> i32 {
        self.texture_id
    }

    /// No texture yet.
    pub fn new() -> (t: Self)
        ensures
            t.id_spec() == -1,
    {
        BackgroundTexture { texture_id: -1 }
    }

    /// The id of the texture, negative while none was made.
    pub fn get_texture_id(&self) -> (id: i32)
        ensures
            id == self.id_spec(),
    {
        self.texture_id
    }

    /// The id of the texture. Without one yet, a background is drawn and handed to
    /// `create_texture` (RGBA bytes of a 256 by 256 texture), and the id it returns is kept;
    /// with one, nothing is drawn or made.
    pub fn get_or_create<F: FnOnce(Vec<u8>) -> i32>(&mut self, create_texture: F) -> (id: i32)
        requires
            old(self).id_spec() < 0 ==> forall|d: Vec<u8>| create_texture.requires((d,)),
        ensures
            final(self).id_spec() == id,
            old(self).id_spec() >= 0 ==> id == old(self).id_spec(),
            old(self).id_spec() < 0 ==> exists|d: Vec<u8>, shades: Seq<u8>|
                valid_shades(shades) && is_background_of(d@, shades) && create_texture.ensures(
                    (d,),
                    id,
                ),
    {
        if self.texture_id < 0 {
            let data = background_texture_data();
            let ghost d = data;
            let id = create_texture(data);
            self.texture_id = id;
            assert(create_texture.ensures((d,), id));
            id
        } else {
            self.texture_id
        }
    }
}

/// Pixel `(x, y)` of the texture has the shade of block `(x / 4, y / 4)` in its three color
/// bytes and is opaque.
pub proof fn lemma_pixel_shade(shades: Seq<u8>, x: int, y: int, c: int)
    requires
        0 <= x < 256,
        0 <= y < 256,
        0 <= c < 4,
    ensures
        background_byte(shades, (y * 256 + x) * 4 + c) == if c == 3 {
            255
        } else {
            shades[(y / 4) * 64 + x / 4] + 25
        },
{
    let i = (y * 256 + x) * 4 + c;
    let p = y * 256 + x;
    lemma_fundamental_div_mod_converse(i, 4, p, c);
    lemma_fundamental_div_mod_converse(p, 256, y, x);
}

/// Every byte of the texture is opaque alpha or a shade between the base and the base plus the
/// number of shades.
pub proof fn lemma_background_bytes_in_range(data: Seq<u8>, shades: Seq<u8>, i: int)
    requires
        valid_shades(shades),
        is_background_of(data, shades),
        0 <= i < 262144,
    ensures
        i % 4 == 3 ==> data[i] == 255,
        i % 4 != 3 ==> 25 <= data[i] < 40,
{
    assert(0 <= i / 4 < 65536) by (nonlinear_arith)
        requires
            0 <= i < 262144,
    ;
    lemma_block_in_range(i / 4);
    assert(data[i] == background_byte(shades, i));
    if i % 4 != 3 {
        assert(shades[block_of_pixel(i / 4)] < 15);
    }
}

} // verus!
