use vstd::prelude::*;

verus! {

/// The size, as `(width, height)`, to which two images of sizes `dim1` and
/// `dim2` are brought before they are combined.
///
/// Each component is compared strictly. Whenever either component ties, or
/// the first image is larger in both, the second image's size is taken whole.
pub open spec fn smallest_dimensions(dim1: (u32, u32), dim2: (u32, u32)) -> (u32, u32) {
    if dim1.0 < dim2.0 && dim1.1 < dim2.1 {
        dim1
    } else if dim1.0 < dim2.0 && dim1.1 > dim2.1 {
        (dim1.0, dim2.1)
    } else if dim1.0 > dim2.0 && dim1.1 < dim2.1 {
        (dim2.0, dim1.1)
    } else {
        dim2
    }
}

/// The larger of two lengths.
pub open spec fn larger(a: u32, b: u32) -> u32 {
    if a >= b {
        a
    } else {
        b
    }
}

/// The smaller of two lengths.
pub open spec fn smaller(a: u32, b: u32) -> u32 {
    if a <= b {
        a
    } else {
        b
    }
}

/// Computes the common size for two images. Neither side of it is longer
/// than the longer of the two images' sides.
pub fn get_smallest_dimensions(dim1: (u32, u32), dim2: (u32, u32)) -> (dim: (u32, u32))
    ensures
        dim == smallest_dimensions(dim1, dim2),
        dim.0 <= larger(dim1.0, dim2.0),
        dim.1 <= larger(dim1.1, dim2.1),
{
    let (width1, height1) = dim1;
    let (width2, height2) = dim2;

    if width1 < width2 && height1 < height2 {
        (width1, height1)
    } else if width1 < width2 && height1 > height2 {
        (width1, height2)
    } else if width1 > width2 && height1 < height2 {
        (width2, height1)
    } else {
        (width2, height2)
    }
}

/// The common size never exceeds the larger image in either direction, and
/// each of its sides is a side of one of the two images.
pub proof fn lemma_smallest_dimensions_bounded(dim1: (u32, u32), dim2: (u32, u32))
    ensures
        smallest_dimensions(dim1, dim2).0 <= larger(dim1.0, dim2.0),
        smallest_dimensions(dim1, dim2).1 <= larger(dim1.1, dim2.1),
        smallest_dimensions(dim1, dim2).0 == dim1.0 || smallest_dimensions(dim1, dim2).0 == dim2.0,
        smallest_dimensions(dim1, dim2).1 == dim1.1 || smallest_dimensions(dim1, dim2).1 == dim2.1,
{
}

/// Where the two images differ in width and in height, the common size is
/// the smaller width by the smaller height.
pub proof fn lemma_distinct_sides_take_the_smaller(dim1: (u32, u32), dim2: (u32, u32))
    requires
        dim1.0 != dim2.0,
        dim1.1 != dim2.1,
    ensures
        smallest_dimensions(dim1, dim2) == (smaller(dim1.0, dim2.0), smaller(dim1.1, dim2.1)),
{
}

/// Where the two images agree in width or in height, the second image's
/// size is taken, also where the first image is the smaller one.
pub proof fn lemma_ties_take_the_second(dim1: (u32, u32), dim2: (u32, u32))
    requires
        dim1.0 == dim2.0 || dim1.1 == dim2.1,
    ensures
        smallest_dimensions(dim1, dim2) == dim2,
{
}

/// Two images of one size keep that size.
pub proof fn lemma_equal_sizes_are_kept(dim: (u32, u32))
    ensures
        smallest_dimensions(dim, dim) == dim,
{
}

} // verus!
