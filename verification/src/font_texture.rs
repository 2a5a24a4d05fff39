//! The glyph atlas: every glyph of a font rasterized once into a stack of
//! texture layers, and a cache that tells where each glyph went.

use crate::atlas::{placed, ArrayAllocator, Rect};
use ahash::AHashMap;
use swash::scale::{Scaler, StrikeWith};
use swash::FontRef;
use vstd::prelude::*;

verus! {

/// Side of each square atlas layer, in pixels.
pub const TEXTURE_WIDTH: u32 = 1024;

/// Bytes in one atlas layer: one byte per pixel.
pub const TEXTURE_SIZE: usize = 1048576;

/// A rasterized glyph: the bytes of its image and where the image sits
/// relative to the pen position. An alpha mask has one byte per pixel, row
/// after row; a color image has four. The atlas holds one byte per pixel
/// and reads the bytes as rows of `width` bytes each.
pub struct Raster {
    /// Width of the bitmap in pixels.
    pub width: u32,
    /// Height of the bitmap in pixels.
    pub height: u32,
    /// Horizontal offset from the pen position to the bitmap's left edge.
    pub left: i32,
    /// Vertical offset from the baseline up to the bitmap's top edge.
    pub top: i32,
    /// The bytes of the image as the rasterizer gave them.
    pub data: Vec<u8>,
}

/// Where the image of a glyph may come from.
#[derive(Clone, Copy, Debug, PartialEq, Eq, Structural)]
pub enum GlyphSource {
    /// The color bitmap strike whose size fits best.
    ColorBitmapBestFit,
    /// The color outline, drawn with the palette of the given index.
    ColorOutline(u16),
    /// The alpha bitmap strike whose size fits best.
    BitmapBestFit,
    /// The outline.
    Outline,
}

/// The sources of a glyph's image in the order in which they are tried;
/// the first that has the glyph wins.
pub open spec fn source_priority() -> Seq<GlyphSource> {
    seq![
        GlyphSource::ColorBitmapBestFit,
        GlyphSource::ColorOutline(0),
        GlyphSource::BitmapBestFit,
        GlyphSource::Outline,
    ]
}

/// The sources of a glyph's image in the order in which they are tried.
pub fn sources() -> (order: Vec<GlyphSource>)
    ensures
        order@ == source_priority(),
{
    let mut order: Vec<GlyphSource> = Vec::new();
    order.push(GlyphSource::ColorBitmapBestFit);
    order.push(GlyphSource::ColorOutline(0));
    order.push(GlyphSource::BitmapBestFit);
    order.push(GlyphSource::Outline);
    assert(order@ =~= source_priority());
    order
}

/// Where a glyph lives in the atlas and how it is positioned on the pen.
#[derive(Clone, Copy, Debug, PartialEq, Eq)]
pub struct GlyphCacheInfo {
    /// Top-left corner of the bitmap within its layer.
    pub tex_position: [u32; 2],
    /// Bearing: offset from the pen position to the bitmap's top-left.
    pub glyph_position: [i32; 2],
    /// Width and height of the bitmap.
    pub tex_size: [u32; 2],
    /// Atlas layer that holds the bitmap.
    pub layer: u32,
}

#[verifier::external_type_specification]
#[verifier::external_body]
pub struct ExFontRef<'a>(FontRef<'a>);

#[verifier::external_type_specification]
#[verifier::external_body]
pub struct ExScaler<'a>(Scaler<'a>);

#[verifier::external_type_specification]
#[verifier::external_body]
pub struct ExRandomState(ahash::RandomState);

#[verifier::external_type_specification]
#[verifier::external_body]
#[verifier::reject_recursive_types(K)]
#[verifier::reject_recursive_types(V)]
#[verifier::reject_recursive_types(S)]
pub struct ExAHashMap<K, V, S>(AHashMap<K, V, S>);

/// The glyph cache: an entry for each glyph identifier that was placed.
pub type GlyphCache = AHashMap<u16, GlyphCacheInfo>;

/// What a glyph cache holds: the entry of each glyph identifier in it.
pub uninterp spec fn cache_entries(cache: GlyphCache) -> Map<u16, GlyphCacheInfo>;

/// The entries of an empty cache.
pub open spec fn no_entries() -> Map<u16, GlyphCacheInfo> {
    Map::empty()
}

/// The images of an atlas without glyphs.
pub open spec fn no_images() -> Map<u16, Raster> {
    Map::empty()
}

/// `ahash::AHashMap::new`: a map with no entries.
#[verifier::external_body]
fn cache_new() -> (fresh: GlyphCache)
    ensures
        cache_entries(fresh) == no_entries(),
{
    AHashMap::new()
}

/// `ahash::AHashMap::insert`: afterwards the key maps to the new entry and
/// every other key is as before.
#[verifier::external_body]
fn cache_insert(cache: &mut GlyphCache, id: u16, info: GlyphCacheInfo)
    ensures
        cache_entries(*final(cache)) == cache_entries(*old(cache)).insert(id, info),
{
    cache.insert(id, info);
}

/// `ahash::AHashMap::get`: the entry stored under the key, if there is one.
#[verifier::external_body]
fn cache_get(cache: &GlyphCache, id: u16) -> (found: Option<GlyphCacheInfo>)
    ensures
        found == if cache_entries(*cache).dom().contains(id) {
            Some(cache_entries(*cache)[id])
        } else {
            None::<GlyphCacheInfo>
        },
{
    cache.get(&id).copied()
}

/// The image that a scaler, in the state it is in, gives for a glyph when
/// the sources are tried in the given order; `None` where no source has
/// the glyph.
pub uninterp spec fn rendered(scaler: Scaler<'static>, order: Seq<GlyphSource>, id: u16) -> Option<
    Raster,
>;

/// The state of a scaler after it gave the image of a glyph.
pub uninterp spec fn scaler_after(
    scaler: Scaler<'static>,
    order: Seq<GlyphSource>,
    id: u16,
) -> Scaler<'static>;

/// `swash::scale::Render::render` with the sources in the given order:
/// the image of the first source that has the glyph, with its placement,
/// or `None`. Image and the scaler's state afterwards are a matter of the
/// scaler's state, the order and the glyph alone.
#[verifier::external_body]
fn render_glyph(scaler: &mut Scaler<'_>, order: &Vec<GlyphSource>, id: u16) -> (raster: Option<
    Raster,
>)
    ensures
        raster == rendered(*old(scaler), order@, id),
        *final(scaler) == scaler_after(*old(scaler), order@, id),
{
    let sources: Vec<swash::scale::Source> = order.iter().map(|source| match source {
        GlyphSource::ColorBitmapBestFit => swash::scale::Source::ColorBitmap(StrikeWith::BestFit),
        GlyphSource::ColorOutline(index) => swash::scale::Source::ColorOutline(*index),
        GlyphSource::BitmapBestFit => swash::scale::Source::Bitmap(StrikeWith::BestFit),
        GlyphSource::Outline => swash::scale::Source::Outline,
    }).collect();
    let image = swash::scale::Render::new(&sources).render(scaler, id)?;
    let at = image.placement;
    Some(Raster { width: at.width, height: at.height, left: at.left, top: at.top, data: image.data })
}

/// The state of a scaler after it gave the images of the first `count`
/// of the glyphs, one after the other.
pub open spec fn scaler_after_all(
    scaler: Scaler<'static>,
    order: Seq<GlyphSource>,
    ids: Seq<u16>,
    count: int,
) -> Scaler<'static>
    decreases count,
{
    if count <= 0 {
        scaler
    } else {
        scaler_after(scaler_after_all(scaler, order, ids, count - 1), order, ids[count - 1])
    }
}

/// Each of the glyphs with the image that the scaler gives for it, the
/// glyphs taken one after the other.
pub open spec fn renders(scaler: Scaler<'static>, order: Seq<GlyphSource>, ids: Seq<u16>) -> Seq<
    (u16, Option<Raster>),
> {
    Seq::new(
        ids.len(),
        |i: int| (ids[i], rendered(scaler_after_all(scaler, order, ids, i), order, ids[i])),
    )
}

/// Rasterizes the glyphs one after the other, trying the sources in the
/// given order.
pub fn render_all(scaler: &mut Scaler<'_>, order: &Vec<GlyphSource>, ids: &Vec<u16>) -> (glyphs: Vec<
    (u16, Option<Raster>),
>)
    ensures
        glyphs@ == renders(*old(scaler), order@, ids@),
        *final(scaler) == scaler_after_all(*old(scaler), order@, ids@, ids@.len() as int),
{
    let mut glyphs: Vec<(u16, Option<Raster>)> = Vec::new();
    let mut next: usize = 0;
    while next < ids.len()
        invariant
            next <= ids.len(),
            glyphs@.len() == next,
            *scaler == scaler_after_all(*old(scaler), order@, ids@, next as int),
            forall|i: int|
                0 <= i < next ==> #[trigger] glyphs@[i] == renders(*old(scaler), order@, ids@)[i],
        decreases ids.len() - next,
    {
        let id = ids[next];
        let raster = render_glyph(scaler, order, id);
        glyphs.push((id, raster));
        next += 1;
    }
    assert(glyphs@ =~= renders(*old(scaler), order@, ids@));
    glyphs
}

/// Why a glyph could not be added to the atlas.
#[derive(Clone, Copy, Debug, PartialEq, Eq)]
pub enum AtlasError {
    /// The bitmap is wider or taller than a layer.
    GlyphTooLarge,
    /// One more layer would not fit in memory or in the layer counter.
    AtlasFull,
}

/// The most layers an atlas may have: their bytes must fit a `usize` and
/// their number a `u32`.
pub open spec fn layer_limit() -> int {
    if usize::MAX / TEXTURE_SIZE < u32::MAX {
        (usize::MAX / TEXTURE_SIZE) as int
    } else {
        u32::MAX as int
    }
}

/// Where pixel `(x, y)` of layer `layer` stands in the atlas bytes: layers
/// of `TEXTURE_SIZE` bytes follow one another, each made of rows of
/// `TEXTURE_WIDTH` bytes.
pub open spec fn texel_index(layer: int, x: int, y: int) -> int {
    layer * 1048576 + y * 1024 + x
}

/// The byte of pixel `(x, y)` of layer `layer` in the atlas bytes.
pub open spec fn texel(data: Seq<u8>, layer: int, x: int, y: int) -> u8 {
    data[texel_index(layer, x, y)]
}

/// The rectangle that a cache entry occupies in its layer.
pub open spec fn entry_rect(info: GlyphCacheInfo) -> Rect {
    Rect {
        x: info.tex_position[0],
        y: info.tex_position[1],
        width: info.tex_size[0],
        height: info.tex_size[1],
    }
}

/// Every entry lies inside a layer that exists, and two entries on one layer
/// share no pixel.
pub open spec fn atlas_sound(entries: Map<u16, GlyphCacheInfo>, layer_count: int) -> bool {
    &&& forall|id: u16| #[trigger]
        entries.dom().contains(id) ==> {
            &&& entry_rect(entries[id]).within(TEXTURE_WIDTH as int, TEXTURE_WIDTH as int)
            &&& entries[id].layer < layer_count
        }
    &&& forall|a: u16, b: u16|
        #![trigger entries[a], entries[b]]
        entries.dom().contains(a) && entries.dom().contains(b) && a != b && entries[a].layer
            == entries[b].layer ==> entry_rect(entries[a]).disjoint(entry_rect(entries[b]))
}

impl Raster {
    /// The bitmap has no pixels.
    pub open spec fn is_empty(&self) -> bool {
        self.width == 0 || self.height == 0
    }

    /// The bitmap fits in one atlas layer.
    pub open spec fn fits(&self) -> bool {
        self.width <= TEXTURE_WIDTH && self.height <= TEXTURE_WIDTH
    }

    /// Rows of the bitmap that the data holds in full, at most `height`.
    pub open spec fn rows(&self) -> int {
        if self.width == 0 {
            0
        } else if (self.data@.len() as int) / (self.width as int) < self.height {
            (self.data@.len() as int) / (self.width as int)
        } else {
            self.height as int
        }
    }

    /// The byte of the bitmap's pixel `(dx, dy)`.
    pub open spec fn pixel(&self, dx: int, dy: int) -> u8 {
        self.data@[dy * self.width + dx]
    }
}

/// The glyph comes with an image that has pixels.
pub open spec fn has_pixels(glyph: (u16, Option<Raster>)) -> bool {
    glyph.1 matches Some(raster) && !raster.is_empty()
}

/// The glyph comes with an image that has pixels and is larger than a
/// layer.
pub open spec fn too_large(glyph: (u16, Option<Raster>)) -> bool {
    glyph.1 matches Some(raster) && !raster.is_empty() && !raster.fits()
}

/// Position of the last of the first `count` glyphs that has the
/// identifier `id` and an image with pixels; -1 where there is none.
pub open spec fn last_drawn(glyphs: Seq<(u16, Option<Raster>)>, count: int, id: u16) -> int
    decreases count,
{
    if count <= 0 {
        -1
    } else if glyphs[count - 1].0 == id && has_pixels(glyphs[count - 1]) {
        count - 1
    } else {
        last_drawn(glyphs, count - 1, id)
    }
}

/// The cache `after` is the cache `before` with the first `count` glyphs
/// added one after the other: a glyph identifier that came with an image
/// with pixels has an entry with the size and the bearing of the last such
/// image, and every other identifier is as it was.
pub open spec fn entries_follow(
    before: Map<u16, GlyphCacheInfo>,
    after: Map<u16, GlyphCacheInfo>,
    glyphs: Seq<(u16, Option<Raster>)>,
    count: int,
) -> bool {
    forall|id: u16|
        {
            let at = #[trigger] last_drawn(glyphs, count, id);
            if at >= 0 {
                &&& after.dom().contains(id)
                &&& after[id].tex_size == [glyphs[at].1->0.width, glyphs[at].1->0.height]
                &&& after[id].glyph_position == [glyphs[at].1->0.left, glyphs[at].1->0.top]
            } else {
                &&& after.dom().contains(id) == before.dom().contains(id)
                &&& before.dom().contains(id) ==> after[id] == before[id]
            }
        }
}

/// The atlas bytes hold the image of every glyph in the cache: each entry
/// has the size and the bearing of its glyph's image, and the rows of the
/// image stand in the entry's rectangle.
pub open spec fn painted(
    data: Seq<u8>,
    entries: Map<u16, GlyphCacheInfo>,
    images: Map<u16, Raster>,
) -> bool {
    forall|id: u16| #[trigger]
        entries.dom().contains(id) ==> {
            &&& images.dom().contains(id)
            &&& entries[id].tex_size == [images[id].width, images[id].height]
            &&& entries[id].glyph_position == [images[id].left, images[id].top]
            &&& forall|dx: int, dy: int|
                0 <= dx < images[id].width && 0 <= dy < images[id].rows() ==> texel(
                    data,
                    entries[id].layer as int,
                    entries[id].tex_position[0] + dx,
                    entries[id].tex_position[1] + dy,
                ) == #[trigger] images[id].pixel(dx, dy)
        }
}

/// The images `after` are the images `before` with those of the first
/// `count` glyphs put in one after the other: a glyph identifier that came
/// with an image with pixels has the last such image, and every other
/// identifier is as it was.
pub open spec fn images_follow(
    before: Map<u16, Raster>,
    after: Map<u16, Raster>,
    glyphs: Seq<(u16, Option<Raster>)>,
    count: int,
) -> bool {
    forall|id: u16|
        {
            let at = #[trigger] last_drawn(glyphs, count, id);
            if at >= 0 {
                after.dom().contains(id) && after[id] == glyphs[at].1->0
            } else {
                &&& after.dom().contains(id) == before.dom().contains(id)
                &&& before.dom().contains(id) ==> after[id] == before[id]
            }
        }
}

/// Adding the glyphs to an atlas of `layers` layers stopped at glyph `at`
/// with `refusal`: every glyph before it was added or skipped, this one
/// has an image with pixels, and it is larger than a layer exactly where
/// the refusal says so; otherwise the atlas was full.
pub open spec fn stopped_at(
    glyphs: Seq<(u16, Option<Raster>)>,
    layers: int,
    at: int,
    refusal: AtlasError,
) -> bool {
    &&& 0 <= at < glyphs.len()
    &&& forall|i: int| 0 <= i < at ==> !too_large(#[trigger] glyphs[i])
    &&& has_pixels(glyphs[at])
    &&& refusal == AtlasError::GlyphTooLarge <==> too_large(glyphs[at])
    &&& refusal == AtlasError::AtlasFull ==> layers + at >= layer_limit()
}

/// The atlas bytes `after` are `before` with the raster drawn at the place
/// that `info` names: the raster's rows are there, every other pixel of the
/// old layers is as it was, and a layer that is new holds zeros elsewhere.
pub open spec fn drawn(before: Seq<u8>, after: Seq<u8>, info: GlyphCacheInfo, raster: Raster) -> bool {
    forall|layer: int, x: int, y: int|
        0 <= layer && 0 <= x < TEXTURE_WIDTH && 0 <= y < TEXTURE_WIDTH && texel_index(layer + 1, 0, 0)
            <= after.len() ==> #[trigger] texel(after, layer, x, y) == if layer == info.layer
            && info.tex_position[0] <= x < info.tex_position[0] + raster.width
            && info.tex_position[1] <= y < info.tex_position[1] + raster.rows() {
            raster.pixel(x - info.tex_position[0], y - info.tex_position[1])
        } else if texel_index(layer + 1, 0, 0) <= before.len() {
            texel(before, layer, x, y)
        } else {
            0u8
        }
}

/// Copies `len` bytes of `src`, starting at `from`, over the bytes of `data`
/// that start at `dest`.
fn copy_row(data: &mut Vec<u8>, dest: usize, src: &Vec<u8>, from: usize, len: usize)
    requires
        dest + len <= old(data)@.len(),
        from + len <= src@.len(),
    ensures
        final(data)@.len() == old(data)@.len(),
        forall|i: int|
            0 <= i < old(data)@.len() ==> #[trigger] final(data)@[i] == if dest <= i < dest + len {
                src@[from + i - dest]
            } else {
                old(data)@[i]
            },
{
    let mut k: usize = 0;
    while k < len
        invariant
            k <= len,
            dest + len <= data.len(),
            from + len <= src.len(),
            data@.len() == old(data)@.len(),
            forall|i: int|
                0 <= i < data@.len() ==> #[trigger] data@[i] == if dest <= i < dest + k {
                    src@[from + i - dest]
                } else {
                    old(data)@[i]
                },
        decreases len - k,
    {
        data[dest + k] = src[from + k];
        k += 1;
    }
}

/// Draws the raster's rows into layer `layer` of the atlas bytes with its
/// top-left pixel at `(x, y)`.
fn blit(data: &mut Vec<u8>, layer: u32, x: u32, y: u32, raster: &Raster)
    requires
        texel_index(layer + 1, 0, 0) <= old(data).len(),
        raster.width > 0,
        raster.height > 0,
        x + raster.width <= TEXTURE_WIDTH,
        y + raster.height <= TEXTURE_WIDTH,
    ensures
        final(data)@.len() == old(data)@.len(),
        forall|l: int, px: int, py: int|
            0 <= l && 0 <= px < TEXTURE_WIDTH && 0 <= py < TEXTURE_WIDTH && texel_index(l + 1, 0, 0)
                <= old(data)@.len() ==> #[trigger] texel(final(data)@, l, px, py) == if l == layer
                && x <= px < x + raster.width && y <= py < y + raster.rows() {
                raster.pixel(px - x, py - y)
            } else {
                texel(old(data)@, l, px, py)
            },
{
    let width = raster.width as usize;
    let held = raster.data.len() / width;
    let rows = if held < raster.height as usize {
        held
    } else {
        raster.height as usize
    };
    assert(rows == raster.rows());
    assert(rows * width <= raster.data.len()) by (nonlinear_arith)
        requires
            rows <= raster.data.len() / width,
            width > 0,
    ;
    let origin = layer as usize * 1048576 + y as usize * 1024 + x as usize;
    let mut row: usize = 0;
    while row < rows
        invariant
            row <= rows <= raster.height,
            rows == raster.rows(),
            width == raster.width > 0,
            raster.height > 0,
            rows * width <= raster.data.len(),
            x + raster.width <= TEXTURE_WIDTH,
            y + raster.height <= TEXTURE_WIDTH,
            texel_index(layer + 1, 0, 0) <= data.len(),
            origin == texel_index(layer as int, x as int, y as int),
            data@.len() == old(data)@.len(),
            forall|l: int, px: int, py: int|
                0 <= l && 0 <= px < TEXTURE_WIDTH && 0 <= py < TEXTURE_WIDTH && texel_index(
                    l + 1,
                    0,
                    0,
                ) <= data@.len() ==> #[trigger] texel(data@, l, px, py) == if l == layer && x
                    <= px < x + raster.width && y <= py < y + row {
                    raster.pixel(px - x, py - y)
                } else {
                    texel(old(data)@, l, px, py)
                },
        decreases rows - row,
    {
        assert(row * width + width <= rows * width) by (nonlinear_arith)
            requires
                row < rows,
        ;
        let ghost prior = data@;
        let dest = origin + row * 1024;
        copy_row(data, dest, &raster.data, row * width, width);
        assert forall|l: int, px: int, py: int|
            0 <= l && 0 <= px < TEXTURE_WIDTH && 0 <= py < TEXTURE_WIDTH && texel_index(l + 1, 0, 0)
                <= data@.len() implies #[trigger] texel(data@, l, px, py) == if l == layer && x
            <= px < x + raster.width && y <= py < y + row + 1 {
            raster.pixel(px - x, py - y)
        } else {
            texel(old(data)@, l, px, py)
        } by {
            let at = texel_index(l, px, py);
            assert(texel(prior, l, px, py) == prior[at]);
            assert(0 <= at < data@.len());
            if l == layer && py == y + row && x <= px < x + raster.width {
                assert(at == dest + (px - x));
                assert(data@[at] == raster.data@[row * width + at - dest]);
            } else {
                assert(!(dest <= at < dest + width));
            }
        }
        row += 1;
    }
}

/// An atlas under construction: the packer, the bytes of its layers and the
/// cache of the glyphs placed so far.
pub struct AtlasBuilder {
    allocator: ArrayAllocator,
    data: Vec<u8>,
    glyph_cache: GlyphCache,
    images: Ghost<Map<u16, Raster>>,
}

impl AtlasBuilder {
    /// The rectangles placed so far, layer by layer.
    pub closed spec fn layers(&self) -> Seq<Seq<Rect>> {
        self.allocator.layers()
    }

    /// The bytes of all layers, one layer after the other, row after row.
    pub closed spec fn data(&self) -> Seq<u8> {
        self.data@
    }

    /// The cache entries of the glyphs placed so far.
    pub closed spec fn entries(&self) -> Map<u16, GlyphCacheInfo> {
        cache_entries(self.glyph_cache)
    }

    /// The packer works on layers of the atlas size, and every cache entry
    /// names a rectangle that the packer placed.
    pub closed spec fn linked(&self) -> bool {
        &&& self.allocator.wf()
        &&& self.allocator.layer_width() == TEXTURE_WIDTH
        &&& self.allocator.layer_height() == TEXTURE_WIDTH
        &&& forall|id: u16| #[trigger]
            self.entries().dom().contains(id) ==> {
                &&& self.entries()[id].layer < self.layers().len()
                &&& self.layers()[self.entries()[id].layer as int].contains(
                    entry_rect(self.entries()[id]),
                )
            }
    }

    /// The image that was drawn for each glyph in the cache.
    pub closed spec fn images(&self) -> Map<u16, Raster> {
        self.images@
    }

    /// Both builders hold the same rectangles, bytes, cache entries and
    /// images.
    pub open spec fn same_as(&self, other: &AtlasBuilder) -> bool {
        &&& self.layers() == other.layers()
        &&& self.data() == other.data()
        &&& self.entries() == other.entries()
        &&& self.images() == other.images()
    }

    /// The builder is well formed: the bytes cover exactly the layers, there
    /// are no more layers than the limit, the cache is sound, and the
    /// bytes hold the images of the glyphs in it.
    pub open spec fn wf(&self) -> bool {
        &&& self.linked()
        &&& self.layers().len() <= layer_limit()
        &&& self.data().len() == texel_index(self.layers().len() as int, 0, 0)
        &&& atlas_sound(self.entries(), self.layers().len() as int)
        &&& painted(self.data(), self.entries(), self.images())
    }

    /// An atlas of two blank layers and no glyphs.
    pub fn new() -> (builder: Self)
        ensures
            builder.wf(),
            builder.layers() == seq![Seq::<Rect>::empty(), Seq::<Rect>::empty()],
            builder.entries() == no_entries(),
            builder.images() == no_images(),
            builder.data().len() == texel_index(2, 0, 0),
            forall|i: int| 0 <= i < builder.data().len() ==> builder.data()[i] == 0,
    {
        let allocator = ArrayAllocator::new(TEXTURE_WIDTH, TEXTURE_WIDTH);
        let data: Vec<u8> = vec![0u8; 2097152];
        let glyph_cache = cache_new();
        AtlasBuilder { allocator, data, glyph_cache, images: Ghost(Map::empty()) }
    }

    /// Number of layers of the atlas.
    pub fn layer_count(&self) -> (count: u32)
        requires
            self.wf(),
        ensures
            count == self.layers().len(),
    {
        self.allocator.layer_count()
    }

    /// Adds one rasterized glyph. A bitmap without pixels is skipped. Any
    /// other is given a rectangle of its own, drawn there, and recorded in
    /// the cache under `id`, replacing an earlier entry of that identifier.
    /// Nothing changes when the glyph is skipped or refused.
    pub fn add_glyph(&mut self, id: u16, raster: &Raster) -> (result: Result<
        Option<GlyphCacheInfo>,
        AtlasError,
    >)
        requires
            old(self).wf(),
        ensures
            final(self).wf(),
            match result {
                Ok(None) => raster.is_empty() && final(self).same_as(old(self)),
                Err(AtlasError::GlyphTooLarge) => {
                    &&& !raster.is_empty()
                    &&& !raster.fits()
                    &&& final(self).same_as(old(self))
                },
                Err(AtlasError::AtlasFull) => {
                    &&& !raster.is_empty()
                    &&& raster.fits()
                    &&& old(self).layers().len() >= layer_limit()
                    &&& final(self).same_as(old(self))
                },
                Ok(Some(info)) => {
                    &&& !raster.is_empty()
                    &&& raster.fits()
                    &&& old(self).layers().len() < layer_limit()
                    &&& info.tex_size == [raster.width, raster.height]
                    &&& info.glyph_position == [raster.left, raster.top]
                    &&& info.layer <= old(self).layers().len()
                    &&& final(self).layers() == placed(
                        old(self).layers(),
                        info.layer as int,
                        entry_rect(info),
                    )
                    &&& final(self).entries() == old(self).entries().insert(id, info)
                    &&& final(self).images() == old(self).images().insert(id, *raster)
                    &&& drawn(old(self).data(), final(self).data(), info, *raster)
                },
            },
    {
        if raster.width == 0 || raster.height == 0 {
            return Ok(None);
        }
        if raster.width > TEXTURE_WIDTH || raster.height > TEXTURE_WIDTH {
            return Err(AtlasError::GlyphTooLarge);
        }
        let count = self.allocator.layer_count();
        if count == u32::MAX || count as usize >= usize::MAX / TEXTURE_SIZE {
            return Err(AtlasError::AtlasFull);
        }
        let ghost before = self.data@;
        let ghost old_layers = self.layers();
        let ghost old_entries = self.entries();
        let place = self.allocator.allocate(raster.width, raster.height);
        proof {
            let rect = Rect { x: place.x, y: place.y, width: raster.width, height: raster.height };
            let row = self.allocator.layers()[place.layer as int];
            assert(row[row.len() - 1] == rect);
            assert(rect.within(TEXTURE_WIDTH as int, TEXTURE_WIDTH as int));
        }
        if place.layer == count {
            let grown = (count as usize + 1) * 1048576;
            self.data.resize(grown, 0u8);
            assert(self.data@.subrange(0, before.len() as int) == before);
            assert forall|i: int| before.len() <= i < self.data@.len() implies self.data@[i]
                == 0u8 by {
                assert(cloned::<u8>(0u8, self.data@[i]));
            }
        }
        let ghost extended = self.data@;
        assert forall|i: int| 0 <= i < before.len() implies extended[i] == before[i] by {
            if place.layer == count {
                assert(extended.subrange(0, before.len() as int)[i] == extended[i]);
            }
        }
        blit(&mut self.data, place.layer, place.x, place.y, raster);
        let info = GlyphCacheInfo {
            tex_position: [place.x, place.y],
            tex_size: [raster.width, raster.height],
            glyph_position: [raster.left, raster.top],
            layer: place.layer,
        };
        cache_insert(&mut self.glyph_cache, id, info);
        let ghost old_images = self.images@;
        proof {
            self.images@ = old_images.insert(id, *raster);
        }
        proof {
            let rect = entry_rect(info);
            let layers = self.layers();
            assert(layers == placed(old_layers, info.layer as int, rect));
            assert(layers[info.layer as int].last() == rect);
            assert forall|other: u16| #[trigger]
                self.entries().dom().contains(other) implies {
                &&& self.entries()[other].layer < layers.len()
                &&& layers[self.entries()[other].layer as int].contains(
                    entry_rect(self.entries()[other]),
                )
            } by {
                if other != id {
                    let e = old_entries[other];
                    assert(old_entries.dom().contains(other));
                    let k = choose|k: int|
                        0 <= k < old_layers[e.layer as int].len() && old_layers[e.layer as int][k]
                            == entry_rect(e);
                    assert(layers[e.layer as int][k] == entry_rect(e));
                } else {
                    let n = layers[info.layer as int].len() - 1;
                    assert(layers[info.layer as int][n] == rect);
                }
            }
            assert forall|a: u16, b: u16|
                #![trigger self.entries()[a], self.entries()[b]]
                self.entries().dom().contains(a) && self.entries().dom().contains(b) && a != b
                    && self.entries()[a].layer == self.entries()[b].layer implies entry_rect(
                self.entries()[a],
            ).disjoint(entry_rect(self.entries()[b])) by {
                let ea = self.entries()[a];
                let eb = self.entries()[b];
                let row = layers[ea.layer as int];
                let ka = choose|k: int| 0 <= k < row.len() && row[k] == entry_rect(ea);
                let kb = choose|k: int| 0 <= k < row.len() && row[k] == entry_rect(eb);
                if a != id && b != id {
                    assert(old_entries.dom().contains(a) && old_entries.dom().contains(b));
                } else if a == id {
                    assert(old_entries.dom().contains(b));
                    let k = choose|k: int|
                        0 <= k < old_layers[eb.layer as int].len()
                            && old_layers[eb.layer as int][k] == entry_rect(eb);
                    assert(row[k] == entry_rect(eb));
                    assert(row[row.len() - 1] == rect);
                    assert(row[row.len() - 1].disjoint(row[k]));
                } else {
                    assert(old_entries.dom().contains(a));
                    let k = choose|k: int|
                        0 <= k < old_layers[ea.layer as int].len()
                            && old_layers[ea.layer as int][k] == entry_rect(ea);
                    assert(row[k] == entry_rect(ea));
                    assert(row[row.len() - 1] == rect);
                    assert(row[k].disjoint(row[row.len() - 1]));
                }
            }
            assert forall|layer: int, x: int, y: int|
                0 <= layer && 0 <= x < TEXTURE_WIDTH && 0 <= y < TEXTURE_WIDTH && texel_index(
                    layer + 1,
                    0,
                    0,
                ) <= self.data@.len() implies #[trigger] texel(
                self.data@,
                layer,
                x,
                y,
            ) == if layer == info.layer && info.tex_position[0] <= x < info.tex_position[0]
                + raster.width && info.tex_position[1] <= y < info.tex_position[1]
                + raster.rows() {
                raster.pixel(x - info.tex_position[0], y - info.tex_position[1])
            } else if texel_index(layer + 1, 0, 0) <= before.len() {
                texel(before, layer, x, y)
            } else {
                0u8
            } by {
                let at = texel_index(layer, x, y);
                assert(texel(extended, layer, x, y) == extended[at]);
            }
            assert(atlas_sound(self.entries(), self.layers().len() as int));
            assert forall|other: u16| #[trigger]
                self.entries().dom().contains(other) implies {
                &&& self.images@.dom().contains(other)
                &&& self.entries()[other].tex_size == [
                    self.images@[other].width,
                    self.images@[other].height,
                ]
                &&& self.entries()[other].glyph_position == [
                    self.images@[other].left,
                    self.images@[other].top,
                ]
                &&& forall|dx: int, dy: int|
                    0 <= dx < self.images@[other].width && 0 <= dy < self.images@[other].rows()
                        ==> texel(
                        self.data@,
                        self.entries()[other].layer as int,
                        self.entries()[other].tex_position[0] + dx,
                        self.entries()[other].tex_position[1] + dy,
                    ) == #[trigger] self.images@[other].pixel(dx, dy)
            } by {
                let entry = self.entries()[other];
                let image = self.images@[other];
                if other != id {
                    assert(old_entries.dom().contains(other));
                    assert(image == old_images[other]);
                }
                assert(entry_rect(entry).within(TEXTURE_WIDTH as int, TEXTURE_WIDTH as int));
                assert forall|dx: int, dy: int|
                    0 <= dx < image.width && 0 <= dy < image.rows() implies texel(
                    self.data@,
                    entry.layer as int,
                    entry.tex_position[0] + dx,
                    entry.tex_position[1] + dy,
                ) == #[trigger] image.pixel(dx, dy) by {
                    let x = entry.tex_position[0] + dx;
                    let y = entry.tex_position[1] + dy;
                    assert(image.rows() <= image.height);
                    if other != id {
                        assert(texel(before, entry.layer as int, x, y) == image.pixel(dx, dy));
                        if entry.layer == info.layer {
                            assert(self.entries().dom().contains(id));
                            assert(self.entries()[id] == info);
                            assert(entry_rect(self.entries()[other]).disjoint(
                                entry_rect(self.entries()[id]),
                            ));
                        }
                        assert(texel(self.data@, entry.layer as int, x, y) == texel(
                            before,
                            entry.layer as int,
                            x,
                            y,
                        ));
                    } else {
                        assert(texel(self.data@, entry.layer as int, x, y) == raster.pixel(dx, dy));
                    }
                }
            }
        }
        Ok(Some(info))
    }

    /// Adds the glyphs one after the other and stops at the first that is
    /// refused. Glyphs without an image and images without pixels are
    /// skipped; a later image of a glyph replaces an earlier one in the
    /// cache. Success is owed where no image is larger than a layer and
    /// the atlas has not enough glyphs to come to get full.
    pub fn add_glyphs(&mut self, glyphs: &Vec<(u16, Option<Raster>)>) -> (result: Result<
        (),
        AtlasError,
    >)
        requires
            old(self).wf(),
        ensures
            final(self).wf(),
            match result {
                Ok(_) => {
                    &&& forall|i: int| 0 <= i < glyphs@.len() ==> !too_large(#[trigger] glyphs@[i])
                    &&& entries_follow(
                        old(self).entries(),
                        final(self).entries(),
                        glyphs@,
                        glyphs@.len() as int,
                    )
                    &&& images_follow(
                        old(self).images(),
                        final(self).images(),
                        glyphs@,
                        glyphs@.len() as int,
                    )
                    &&& old(self).layers().len() <= final(self).layers().len() <= old(
                        self,
                    ).layers().len() + glyphs@.len()
                },
                Err(refusal) => exists|at: int|
                    {
                        &&& #[trigger] stopped_at(
                            glyphs@,
                            old(self).layers().len() as int,
                            at,
                            refusal,
                        )
                        &&& entries_follow(old(self).entries(), final(self).entries(), glyphs@, at)
                        &&& images_follow(old(self).images(), final(self).images(), glyphs@, at)
                    },
            },
            (forall|i: int| 0 <= i < glyphs@.len() ==> !too_large(#[trigger] glyphs@[i])) && old(
                self,
            ).layers().len() + glyphs@.len() <= layer_limit() ==> result is Ok,
            glyphs@.len() == 0 ==> final(self).same_as(old(self)),
    {
        let mut next: usize = 0;
        while next < glyphs.len()
            invariant
                next <= glyphs.len(),
                self.wf(),
                forall|i: int| 0 <= i < next ==> !too_large(#[trigger] glyphs@[i]),
                entries_follow(old(self).entries(), self.entries(), glyphs@, next as int),
                images_follow(old(self).images(), self.images(), glyphs@, next as int),
                old(self).layers().len() <= self.layers().len() <= old(self).layers().len() + next,
                next == 0 ==> self.same_as(old(self)),
            decreases glyphs.len() - next,
        {
            let ghost before = self.entries();
            let ghost images_before = self.images();
            let id = glyphs[next].0;
            match &glyphs[next].1 {
                Some(raster) => {
                    match self.add_glyph(id, raster) {
                        Ok(_) => {},
                        Err(refusal) => {
                            assert(stopped_at(
                                glyphs@,
                                old(self).layers().len() as int,
                                next as int,
                                refusal,
                            ));
                            return Err(refusal);
                        },
                    }
                },
                None => {},
            }
            assert forall|other: u16|
                {
                    let at = #[trigger] last_drawn(glyphs@, next + 1, other);
                    if at >= 0 {
                        &&& self.entries().dom().contains(other)
                        &&& self.entries()[other].tex_size == [
                            glyphs@[at].1->0.width,
                            glyphs@[at].1->0.height,
                        ]
                        &&& self.entries()[other].glyph_position == [
                            glyphs@[at].1->0.left,
                            glyphs@[at].1->0.top,
                        ]
                    } else {
                        &&& self.entries().dom().contains(other) == old(
                            self,
                        ).entries().dom().contains(other)
                        &&& old(self).entries().dom().contains(other) ==> self.entries()[other]
                            == old(self).entries()[other]
                    }
                } by {
                let earlier = last_drawn(glyphs@, next as int, other);
                if other == id && has_pixels(glyphs@[next as int]) {
                } else {
                    assert(last_drawn(glyphs@, next + 1, other) == earlier);
                    assert(self.entries().dom().contains(other) == before.dom().contains(other));
                }
            }
            assert forall|other: u16|
                {
                    let at = #[trigger] last_drawn(glyphs@, next + 1, other);
                    if at >= 0 {
                        self.images().dom().contains(other) && self.images()[other]
                            == glyphs@[at].1->0
                    } else {
                        &&& self.images().dom().contains(other) == old(
                            self,
                        ).images().dom().contains(other)
                        &&& old(self).images().dom().contains(other) ==> self.images()[other]
                            == old(self).images()[other]
                    }
                } by {
                let earlier = last_drawn(glyphs@, next as int, other);
                if other == id && has_pixels(glyphs@[next as int]) {
                } else {
                    assert(last_drawn(glyphs@, next + 1, other) == earlier);
                    assert(self.images().dom().contains(other) == images_before.dom().contains(
                        other,
                    ));
                }
            }
            next += 1;
        }
        Ok(())
    }

    /// Ends construction: the finished atlas of `font` with the bytes, the
    /// cache and the number of layers as they stand.
    pub fn finish(self, font: FontRef<'static>) -> (texture: FontTexture)
        requires
            self.wf(),
        ensures
            texture.wf(),
            texture.font == font,
            texture.data@ == self.data(),
            texture.entries() == self.entries(),
            texture.images@ == self.images(),
            texture.layer_count == self.layers().len(),
    {
        let layer_count = self.allocator.layer_count();
        FontTexture {
            font,
            data: self.data,
            glyph_cache: self.glyph_cache,
            layer_count,
            images: self.images,
        }
    }
}

/// The finished glyph atlas of one font at one size.
pub struct FontTexture {
    /// The font whose glyphs the atlas holds.
    pub font: FontRef<'static>,
    /// The bytes of all layers, one layer after the other, row after row.
    pub data: Vec<u8>,
    /// Where each glyph is.
    pub glyph_cache: GlyphCache,
    /// Number of layers.
    pub layer_count: u32,
    /// The image that was drawn for each glyph in the cache.
    pub images: Ghost<Map<u16, Raster>>,
}

impl FontTexture {
    /// The cache entries, by glyph identifier.
    pub open spec fn entries(&self) -> Map<u16, GlyphCacheInfo> {
        cache_entries(self.glyph_cache)
    }

    /// The atlas is well formed: the bytes cover exactly the layers, the
    /// cache is sound, and the bytes hold the images of the glyphs in it.
    pub open spec fn wf(&self) -> bool {
        &&& self.data@.len() == texel_index(self.layer_count as int, 0, 0)
        &&& atlas_sound(self.entries(), self.layer_count as int)
        &&& painted(self.data@, self.entries(), self.images@)
    }

    /// Rasterizes the glyphs `ids` of the font with `scaler`, in this order,
    /// and packs the images into an atlas. Glyphs without an image and
    /// images without pixels get no entry; of a glyph that comes twice the
    /// last image counts. Fails with the refusal of the first glyph that
    /// the atlas refuses.
    pub fn new(font: FontRef<'static>, scaler: &mut Scaler<'_>, ids: &Vec<u16>) -> (result: Result<
        FontTexture,
        AtlasError,
    >)
        ensures
            *final(scaler) == scaler_after_all(
                *old(scaler),
                source_priority(),
                ids@,
                ids@.len() as int,
            ),
            match result {
                Ok(texture) => {
                    &&& texture.wf()
                    &&& texture.font == font
                    &&& 2 <= texture.layer_count <= 2 + ids@.len()
                    &&& forall|i: int|
                        0 <= i < ids@.len() ==> !too_large(
                            #[trigger] renders(*old(scaler), source_priority(), ids@)[i],
                        )
                    &&& entries_follow(
                        no_entries(),
                        texture.entries(),
                        renders(*old(scaler), source_priority(), ids@),
                        ids@.len() as int,
                    )
                    &&& images_follow(
                        no_images(),
                        texture.images@,
                        renders(*old(scaler), source_priority(), ids@),
                        ids@.len() as int,
                    )
                    &&& ids@.len() == 0 ==> {
                        &&& texture.entries() == no_entries()
                        &&& texture.layer_count == 2
                        &&& forall|i: int| 0 <= i < texture.data@.len() ==> texture.data@[i] == 0
                    }
                },
                Err(refusal) => exists|at: int| #[trigger]
                    stopped_at(renders(*old(scaler), source_priority(), ids@), 2, at, refusal),
            },
            (forall|i: int|
                0 <= i < ids@.len() ==> !too_large(
                    #[trigger] renders(*old(scaler), source_priority(), ids@)[i],
                )) && 2 + ids@.len() <= layer_limit() ==> result is Ok,
    {
        let order = sources();
        let glyphs = render_all(scaler, &order, ids);
        let mut builder = AtlasBuilder::new();
        match builder.add_glyphs(&glyphs) {
            Ok(_) => Ok(builder.finish(font)),
            Err(refusal) => Err(refusal),
        }
    }

    /// The cache entry of a glyph, if the atlas holds the glyph.
    pub fn glyph(&self, id: u16) -> (found: Option<GlyphCacheInfo>)
        ensures
            found == if self.entries().dom().contains(id) {
                Some(self.entries()[id])
            } else {
                None::<GlyphCacheInfo>
            },
    {
        cache_get(&self.glyph_cache, id)
    }
}

/// Every cache entry lies inside the texture, on a layer that exists.
pub proof fn lemma_entry_in_texture(texture: FontTexture, id: u16)
    requires
        texture.wf(),
        texture.entries().dom().contains(id),
    ensures
        texture.entries()[id].tex_position[0] + texture.entries()[id].tex_size[0] <= TEXTURE_WIDTH,
        texture.entries()[id].tex_position[1] + texture.entries()[id].tex_size[1] <= TEXTURE_WIDTH,
        texture.entries()[id].layer < texture.layer_count,
{
}

/// The atlas bytes hold, in the rectangle of an entry, the rows of the
/// image that was drawn for its glyph.
pub proof fn lemma_entry_holds_image(texture: FontTexture, id: u16, dx: int, dy: int)
    requires
        texture.wf(),
        texture.entries().dom().contains(id),
        0 <= dx < texture.images@[id].width,
        0 <= dy < texture.images@[id].rows(),
    ensures
        texel(
            texture.data@,
            texture.entries()[id].layer as int,
            texture.entries()[id].tex_position[0] + dx,
            texture.entries()[id].tex_position[1] + dy,
        ) == texture.images@[id].pixel(dx, dy),
{
    assert(texture.images@[id].pixel(dx, dy) == texture.images@[id].pixel(dx, dy));
}

/// The rectangles of two different glyphs on one layer share no pixel.
pub proof fn lemma_entries_disjoint(texture: FontTexture, a: u16, b: u16, x: int, y: int)
    requires
        texture.wf(),
        texture.entries().dom().contains(a),
        texture.entries().dom().contains(b),
        a != b,
        texture.entries()[a].layer == texture.entries()[b].layer,
    ensures
        entry_rect(texture.entries()[a]).disjoint(entry_rect(texture.entries()[b])),
        !(entry_rect(texture.entries()[a]).covers(x, y) && entry_rect(texture.entries()[b]).covers(
            x,
            y,
        )),
{
}

} // verus!
