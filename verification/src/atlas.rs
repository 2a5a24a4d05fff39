//! Packing glyph rectangles into a stack of equally sized texture layers.

use etagere::BucketedAtlasAllocator;
use vstd::prelude::*;

verus! {

/// Largest side, in pixels, that a layer may have. The packer behind each
/// layer counts the occupied area in 32 signed bits, which a square of
/// this side still fits, and rounds heights up within 16 bits.
pub const MAX_LAYER_SIDE: u32 = 46340;

/// An axis-aligned pixel rectangle inside one layer.
#[derive(Clone, Copy, Debug)]
pub struct Rect {
    pub x: u32,
    pub y: u32,
    pub width: u32,
    pub height: u32,
}

impl Rect {
    /// One past the rightmost pixel column.
    pub open spec fn right(self) -> int {
        self.x + self.width
    }

    /// One past the lowest pixel row.
    pub open spec fn bottom(self) -> int {
        self.y + self.height
    }

    /// The rectangle lies inside a layer of the given size.
    pub open spec fn within(self, width: int, height: int) -> bool {
        self.right() <= width && self.bottom() <= height
    }

    /// The pixel `(px, py)` belongs to the rectangle.
    pub open spec fn covers(self, px: int, py: int) -> bool {
        self.x <= px < self.right() && self.y <= py < self.bottom()
    }

    /// The two rectangles share no pixel.
    pub open spec fn disjoint(self, other: Rect) -> bool {
        ||| self.right() <= other.x
        ||| other.right() <= self.x
        ||| self.bottom() <= other.y
        ||| other.bottom() <= self.y
    }
}

/// Rectangles that share no pixel have no covered point in common.
pub proof fn lemma_disjoint_no_common_pixel(a: Rect, b: Rect, px: int, py: int)
    requires
        a.disjoint(b),
    ensures
        !(a.covers(px, py) && b.covers(px, py)),
{
}

/// Rectangles with pixels that have no pixel in common share no pixel.
pub proof fn lemma_no_common_pixel_disjoint(a: Rect, b: Rect)
    requires
        a.width > 0 && a.height > 0,
        b.width > 0 && b.height > 0,
        forall|px: int, py: int| !(#[trigger] a.covers(px, py) && b.covers(px, py)),
    ensures
        a.disjoint(b),
{
    let px = if a.x < b.x {
        b.x as int
    } else {
        a.x as int
    };
    let py = if a.y < b.y {
        b.y as int
    } else {
        a.y as int
    };
    assert(!(a.covers(px, py) && b.covers(px, py)));
}

#[verifier::external_type_specification]
#[verifier::external_body]
pub struct ExBucketedAtlasAllocator(BucketedAtlasAllocator);

/// The pixels of a layer that its packer counts as occupied.
pub uninterp spec fn layer_taken(layer: BucketedAtlasAllocator) -> Set<(int, int)>;

/// The `(width, height)` that one layer's packer was made with.
pub uninterp spec fn layer_extent(layer: BucketedAtlasAllocator) -> (int, int);

/// Whether a layer's packer, as it stands, has room for a rectangle of the
/// given size.
pub uninterp spec fn layer_accepts(layer: BucketedAtlasAllocator, width: int, height: int) -> bool;

/// No pixels.
pub open spec fn no_pixels() -> Set<(int, int)> {
    Set::empty()
}

/// `etagere::BucketedAtlasAllocator::new` with the default options: a
/// packer for a layer of the given size with nothing occupied.
#[verifier::external_body]
fn new_layer(width: u32, height: u32) -> (layer: BucketedAtlasAllocator)
    requires
        width <= MAX_LAYER_SIDE,
        height <= MAX_LAYER_SIDE,
    ensures
        layer_taken(layer) == no_pixels(),
        layer_extent(layer) == (width as int, height as int),
{
    BucketedAtlasAllocator::new(etagere::size2(width as i32, height as i32))
}

/// `etagere::BucketedAtlasAllocator::allocate`, as long as nothing is ever
/// given back to the packer and no side of the layer is above
/// `MAX_LAYER_SIDE`. Whether the packer has room is a matter of its state
/// and the size alone. Where it has, it returns the top-left corner of a
/// region at least as large as asked: the region lies inside the layer,
/// none of its pixels was occupied, and all of them are afterwards, as is
/// every pixel that was. A packer with nothing occupied has room for every
/// size with pixels that fits the layer. A refusal occupies nothing.
#[verifier::external_body]
fn layer_allocate(layer: &mut BucketedAtlasAllocator, width: u32, height: u32) -> (corner: Option<
    (u32, u32),
>)
    requires
        layer_extent(*old(layer)).0 <= MAX_LAYER_SIDE,
        layer_extent(*old(layer)).1 <= MAX_LAYER_SIDE,
        width <= MAX_LAYER_SIDE,
        height <= MAX_LAYER_SIDE,
    ensures
        layer_extent(*final(layer)) == layer_extent(*old(layer)),
        corner is Some <==> layer_accepts(*old(layer), width as int, height as int),
        match corner {
            Some((x, y)) => {
                let rect = Rect { x, y, width, height };
                &&& rect.within(layer_extent(*old(layer)).0, layer_extent(*old(layer)).1)
                &&& forall|px: int, py: int|
                    rect.covers(px, py) ==> !(#[trigger] layer_taken(*old(layer)).contains(
                        (px, py),
                    ))
                &&& forall|px: int, py: int|
                    rect.covers(px, py) || layer_taken(*old(layer)).contains((px, py))
                        ==> #[trigger] layer_taken(*final(layer)).contains((px, py))
            },
            None => layer_taken(*final(layer)) == layer_taken(*old(layer)),
        },
        layer_taken(*old(layer)) == no_pixels() && 0 < width <= layer_extent(*old(layer)).0 && 0
            < height <= layer_extent(*old(layer)).1 ==> corner is Some,
{
    match layer.allocate(etagere::size2(width as i32, height as i32)) {
        Some(got) => Some((got.rectangle.min.x as u32, got.rectangle.min.y as u32)),
        None => None,
    }
}

/// Where a rectangle was placed: its top-left corner and its layer.
#[derive(Clone, Copy, Default)]
pub struct Allocation {
    pub x: u32,
    pub y: u32,
    pub layer: u32,
}

/// Every rectangle lies inside its layer, and no two rectangles of one
/// layer share a pixel.
pub open spec fn packed(layers: Seq<Seq<Rect>>, width: int, height: int) -> bool {
    &&& forall|l: int, i: int|
        0 <= l < layers.len() && 0 <= i < layers[l].len() ==> (#[trigger] layers[l][i]).within(
            width,
            height,
        )
    &&& forall|l: int, i: int, j: int|
        0 <= l < layers.len() && 0 <= i < layers[l].len() && 0 <= j < layers[l].len() && i != j
            ==> (#[trigger] layers[l][i]).disjoint(#[trigger] layers[l][j])
}

/// The layers after `rect` went into layer `layer`: appended to that layer's
/// rectangles, or alone in a new last layer when `layer` is one past the end.
pub open spec fn placed(layers: Seq<Seq<Rect>>, layer: int, rect: Rect) -> Seq<Seq<Rect>> {
    if 0 <= layer < layers.len() {
        layers.update(layer, layers[layer].push(rect))
    } else {
        layers.push(seq![rect])
    }
}

/// A growing stack of texture layers of one size, each with a packer of its
/// own. Rectangles are never given back.
pub struct ArrayAllocator {
    inner: Vec<BucketedAtlasAllocator>,
    width: u32,
    height: u32,
    placed: Ghost<Seq<Seq<Rect>>>,
}

impl ArrayAllocator {
    /// The rectangles placed so far, layer by layer, oldest first.
    pub closed spec fn layers(&self) -> Seq<Seq<Rect>> {
        self.placed@
    }

    /// Width of every layer in pixels.
    pub closed spec fn layer_width(&self) -> int {
        self.width as int
    }

    /// Height of every layer in pixels.
    pub closed spec fn layer_height(&self) -> int {
        self.height as int
    }

    /// Whether the packer of layer `layer`, as it stands, has room for a
    /// rectangle of the given size.
    pub closed spec fn accepts(&self, layer: int, width: int, height: int) -> bool {
        layer_accepts(self.inner@[layer], width, height)
    }

    /// Every packer was made for this stack's layer size, and every
    /// rectangle placed has pixels, all of which its layer's packer counts
    /// as occupied.
    pub closed spec fn consistent(&self) -> bool {
        &&& self.width <= MAX_LAYER_SIDE
        &&& self.height <= MAX_LAYER_SIDE
        &&& self.placed@.len() == self.inner@.len()
        &&& forall|l: int|
            0 <= l < self.inner@.len() ==> layer_extent(#[trigger] self.inner@[l]) == (
                self.width as int,
                self.height as int,
            )
        &&& forall|l: int, i: int|
            0 <= l < self.placed@.len() && 0 <= i < self.placed@[l].len() ==> (
            #[trigger] self.placed@[l][i]).width > 0 && self.placed@[l][i].height > 0
        &&& forall|l: int, i: int, px: int, py: int|
            0 <= l < self.placed@.len() && 0 <= i < self.placed@[l].len() && (
            #[trigger] self.placed@[l][i]).covers(px, py) ==> #[trigger] layer_taken(
                self.inner@[l],
            ).contains((px, py))
    }

    /// The stack is well formed: its layers are packed without overlap and
    /// their number fits a `u32`.
    pub open spec fn wf(&self) -> bool {
        &&& self.consistent()
        &&& self.layers().len() <= u32::MAX
        &&& packed(self.layers(), self.layer_width(), self.layer_height())
    }

    /// A stack of two empty layers of `width` by `height` pixels.
    pub fn new(width: u32, height: u32) -> (stack: Self)
        requires
            width <= MAX_LAYER_SIDE,
            height <= MAX_LAYER_SIDE,
        ensures
            stack.wf(),
            stack.layer_width() == width,
            stack.layer_height() == height,
            stack.layers() == seq![Seq::<Rect>::empty(), Seq::<Rect>::empty()],
    {
        let mut inner: Vec<BucketedAtlasAllocator> = Vec::new();
        inner.push(new_layer(width, height));
        inner.push(new_layer(width, height));
        let ghost none = Seq::<Seq<Rect>>::empty().push(Seq::empty()).push(Seq::empty());
        assert(none =~= seq![Seq::<Rect>::empty(), Seq::<Rect>::empty()]);
        ArrayAllocator { inner, width, height, placed: Ghost(none) }
    }

    /// Number of layers, used or not.
    pub fn layer_count(&self) -> (count: u32)
        requires
            self.wf(),
        ensures
            count == self.layers().len(),
    {
        self.inner.len() as u32
    }

    /// Places a `width` by `height` rectangle in the first layer whose packer
    /// has room for it, and in a new last layer when none has.
    pub fn allocate(&mut self, width: u32, height: u32) -> (place: Allocation)
        requires
            old(self).wf(),
            0 < width <= old(self).layer_width(),
            0 < height <= old(self).layer_height(),
            old(self).layers().len() < u32::MAX,
        ensures
            final(self).wf(),
            final(self).layer_width() == old(self).layer_width(),
            final(self).layer_height() == old(self).layer_height(),
            place.layer <= old(self).layers().len(),
            forall|l: int|
                0 <= l < place.layer ==> !#[trigger] old(self).accepts(
                    l,
                    width as int,
                    height as int,
                ),
            place.layer < old(self).layers().len() ==> old(self).accepts(
                place.layer as int,
                width as int,
                height as int,
            ),
            final(self).layers() == placed(
                old(self).layers(),
                place.layer as int,
                Rect { x: place.x, y: place.y, width, height },
            ),
    {
        let ghost before = self.layers();
        let count = self.inner.len();
        let mut layer: usize = 0;
        while layer < count
            invariant
                layer <= count == self.inner@.len(),
                self.wf(),
                self.layers() == before,
                before == old(self).layers(),
                self.width == old(self).width,
                self.height == old(self).height,
                0 < width <= self.width,
                0 < height <= self.height,
                forall|l: int| layer <= l < count ==> #[trigger] self.inner@[l] == old(self).inner@[l],
                forall|l: int|
                    0 <= l < layer ==> !#[trigger] old(self).accepts(
                        l,
                        width as int,
                        height as int,
                    ),
            decreases count - layer,
        {
            let ghost stack = self.inner@;
            assert(layer_extent(stack[layer as int]) == (self.width as int, self.height as int));
            let found = layer_allocate(&mut self.inner[layer], width, height);
            assert(forall|l: int|
                0 <= l < count && l != layer ==> #[trigger] self.inner@[l] == stack[l]);
            match found {
                Some((x, y)) => {
                    let ghost rect = Rect { x, y, width, height };
                    proof {
                        self.placed@ = placed(before, layer as int, rect);
                        assert forall|i: int| 0 <= i < before[layer as int].len() implies rect.disjoint(
                            #[trigger] before[layer as int][i],
                        ) by {
                            let other = before[layer as int][i];
                            assert forall|px: int, py: int|
                                !(#[trigger] rect.covers(px, py) && other.covers(px, py)) by {
                                if other.covers(px, py) {
                                    assert(layer_taken(stack[layer as int]).contains((px, py)));
                                }
                            }
                            lemma_no_common_pixel_disjoint(rect, other);
                        }
                        lemma_placed_packed(
                            before,
                            layer as int,
                            rect,
                            self.width as int,
                            self.height as int,
                        );
                    }
                    return Allocation { x, y, layer: layer as u32 };
                },
                None => {},
            }
            layer += 1;
        }
        let mut fresh = new_layer(self.width, self.height);
        let found = layer_allocate(&mut fresh, width, height);
        match found {
            Some((x, y)) => {
                let ghost rect = Rect { x, y, width, height };
                self.inner.push(fresh);
                proof {
                    self.placed@ = placed(before, count as int, rect);
                    lemma_placed_packed(
                        before,
                        count as int,
                        rect,
                        self.width as int,
                        self.height as int,
                    );
                }
                Allocation { x, y, layer: count as u32 }
            },
            None => {
                // A layer with nothing occupied has room for every rectangle that fits it.
                proof {
                    assert(false);
                }
                Allocation { x: 0, y: 0, layer: 0 }
            },
        }
    }
}

/// Placing a rectangle that lies inside the layer and overlaps none of the
/// layer's rectangles keeps the layers packed.
pub proof fn lemma_placed_packed(
    layers: Seq<Seq<Rect>>,
    layer: int,
    rect: Rect,
    width: int,
    height: int,
)
    requires
        packed(layers, width, height),
        0 <= layer <= layers.len(),
        rect.within(width, height),
        layer < layers.len() ==> forall|i: int|
            0 <= i < layers[layer].len() ==> rect.disjoint(#[trigger] layers[layer][i]),
    ensures
        packed(placed(layers, layer, rect), width, height),
{
    let after = placed(layers, layer, rect);
    assert forall|l: int, i: int| 0 <= l < after.len() && 0 <= i < after[l].len() implies (
    #[trigger] after[l][i]).within(width, height) by {
        if l == layer {
            if layer < layers.len() && i < layers[l].len() {
                assert(after[l][i] == layers[l][i]);
            }
        } else {
            assert(after[l][i] == layers[l][i]);
        }
    }
    assert forall|l: int, i: int, j: int|
        0 <= l < after.len() && 0 <= i < after[l].len() && 0 <= j < after[l].len() && i
            != j implies (#[trigger] after[l][i]).disjoint(#[trigger] after[l][j]) by {
        if l == layer && layer < layers.len() {
            let n = layers[l].len();
            if i < n && j < n {
                assert(layers[l][i].disjoint(layers[l][j]));
            } else if i < n {
                assert(rect.disjoint(layers[l][i]));
            } else {
                assert(rect.disjoint(layers[l][j]));
            }
        } else if l != layer {
            assert(layers[l][i].disjoint(layers[l][j]));
        }
    }
}

} // verus!
