//! Shapes and memory layouts.

use crate::error;
use crate::error::{error_text2, error_text5, Error};
use crate::printing::write_text;
use crate::text;
use crate::text::{decimal_text, list_text};
use vstd::prelude::*;

verus! {

/// The extents of a tensor, slowest first. The last one is the row width.
pub struct Shape {
    dims: Vec<usize>,
}

/// The extents are printed as a list, as `text` gives it.
impl std::fmt::Debug for Shape {
    fn fmt(&self, to: &mut std::fmt::Formatter<'_>) -> Result<(), std::fmt::Error> {
        write_text(to, self.text().as_str())
    }
}

impl View for Shape {
    type V = Seq<usize>;

    closed spec fn view(&self) -> Seq<usize> {
        self.dims@
    }
}

/// The number of elements that a shape holds.
pub open spec fn elements(dims: Seq<usize>) -> nat
    decreases dims.len(),
{
    if dims.len() == 0 {
        1
    } else {
        elements(dims.drop_last()) * dims.last() as nat
    }
}

/// Multiplying the extents up from the first one never leaves `usize`.
pub open spec fn elements_fit(dims: Seq<usize>) -> bool {
    forall|i: int| 0 <= i <= dims.len() ==> #[trigger] elements(dims.take(i)) <= usize::MAX
}

/// The distance between two neighbours along dimension `i - 1` when the
/// elements stand row after row: the product of the extents from `i` on.
pub open spec fn row_major_stride(dims: Seq<usize>, i: int) -> nat
    decreases dims.len() - i,
{
    if i < 0 || i >= dims.len() {
        1
    } else {
        dims[i] as nat * row_major_stride(dims, i + 1)
    }
}

/// Every row-major stride fits in `usize`.
pub open spec fn strides_fit(dims: Seq<usize>) -> bool {
    forall|i: int| 0 <= i <= dims.len() ==> #[trigger] row_major_stride(dims, i) <= usize::MAX
}

/// What a caller prints when a shape has another rank than two.
pub open spec fn rank_two_text(dims: Seq<usize>) -> Seq<char> {
    "unexpected rank, expected: 2, got: "@ + text::decimal(dims.len()) + " ("@ + text::decimal_list(dims) + ")"@
}

/// What a caller prints when a scalar is asked for its last dimension.
pub open spec fn last_dim_text(dims: Seq<usize>) -> Seq<char> {
    "dim: dimension index -1 out of range for shape "@ + text::decimal_list(dims)
}

impl Shape {
    /// A shape with the given extents.
    pub fn from_dims(dims: Vec<usize>) -> (shape: Shape)
        ensures
            shape@ == dims@,
    {
        Shape { dims }
    }

    /// The extents.
    pub fn dims(&self) -> (dims: &Vec<usize>)
        ensures
            dims@ == self@,
    {
        &self.dims
    }

    /// The extents, taken out of the shape.
    pub fn into_dims(self) -> (dims: Vec<usize>)
        ensures
            dims@ == self@,
    {
        self.dims
    }

    /// The number of dimensions.
    pub fn rank(&self) -> (rank: usize)
        ensures
            rank == self@.len(),
    {
        self.dims.len()
    }

    /// The number of elements.
    pub fn elem_count(&self) -> (count: usize)
        requires
            elements_fit(self@),
        ensures
            count == elements(self@),
    {
        let mut count: usize = 1;
        let mut i: usize = 0;
        assert(self@.take(0) =~= Seq::<usize>::empty());
        while i < self.dims.len()
            invariant
                i <= self@.len(),
                self.dims@ == self@,
                elements_fit(self@),
                count == elements(self@.take(i as int)),
            decreases self@.len() - i,
        {
            proof {
                let grown = self@.take(i + 1);
                assert(grown.drop_last() =~= self@.take(i as int));
                assert(grown.last() == self@[i as int]);
                assert(elements(self@.take(i + 1)) <= usize::MAX);
            }
            count = count * self.dims[i];
            i = i + 1;
        }
        assert(self@.take(i as int) =~= self@);
        count
    }

    /// The number of elements, where it can be counted.
    pub fn checked_elem_count(&self) -> (count: Option<usize>)
        ensures
            match count {
                Some(count) => elements_fit(self@) && count == elements(self@),
                None => !elements_fit(self@),
            },
    {
        let mut count: usize = 1;
        let mut i: usize = 0;
        assert(self@.take(0) =~= Seq::<usize>::empty());
        while i < self.dims.len()
            invariant
                i <= self@.len(),
                self.dims@ == self@,
                count == elements(self@.take(i as int)),
                forall|j: int| 0 <= j <= i ==> #[trigger] elements(self@.take(j)) <= usize::MAX,
            decreases self@.len() - i,
        {
            proof {
                let grown = self@.take(i + 1);
                assert(grown.drop_last() =~= self@.take(i as int));
                assert(grown.last() == self@[i as int]);
                assert(elements(grown) == count * self@[i as int]);
            }
            match count.checked_mul(self.dims[i]) {
                Some(product) => {
                    count = product;
                },
                None => {
                    return None;
                },
            }
            i = i + 1;
        }
        assert(self@.take(i as int) =~= self@);
        Some(count)
    }

    /// The two extents of a matrix.
    pub fn dims2(&self) -> (outcome: Result<(usize, usize), Error>)
        ensures
            self@.len() == 2 ==> outcome == Ok::<(usize, usize), Error>((self@[0], self@[1])),
            self@.len() != 2 ==> error::fails_with(outcome, rank_two_text(self@)),
    {
        if self.dims.len() == 2 {
            Ok((self.dims[0], self.dims[1]))
        } else {
            Err(
                error_text5(
                    "unexpected rank, expected: 2, got: ",
                    decimal_text(self.dims.len() as u64).as_str(),
                    " (",
                    list_text(&self.dims).as_str(),
                    ")",
                ),
            )
        }
    }

    /// The row width.
    pub fn last_dim(&self) -> (outcome: Result<usize, Error>)
        ensures
            self@.len() > 0 ==> outcome == Ok::<usize, Error>(self@.last()),
            self@.len() == 0 ==> error::fails_with(outcome, last_dim_text(self@)),
    {
        if self.dims.len() > 0 {
            Ok(self.dims[self.dims.len() - 1])
        } else {
            Err(
                error_text2(
                    "dim: dimension index -1 out of range for shape ",
                    list_text(&self.dims).as_str(),
                ),
            )
        }
    }

    /// The shape as it is printed.
    pub fn text(&self) -> (text: String)
        ensures
            text@ == text::decimal_list(self@),
    {
        list_text(&self.dims)
    }

    /// Whether both shapes have the same extents.
    pub fn same_dims(&self, other: &Shape) -> (same: bool)
        ensures
            same == (self@ == other@),
    {
        if self.dims.len() != other.dims.len() {
            return false;
        }
        let mut i: usize = 0;
        while i < self.dims.len()
            invariant
                i <= self@.len(),
                self.dims@ == self@,
                other.dims@ == other@,
                self@.len() == other@.len(),
                forall|j: int| 0 <= j < i ==> self@[j] == other@[j],
            decreases self@.len() - i,
        {
            if self.dims[i] != other.dims[i] {
                return false;
            }
            i = i + 1;
        }
        assert(self@ =~= other@);
        true
    }
}

impl Clone for Shape {
    fn clone(&self) -> (copy: Shape)
        ensures
            copy@ == self@,
    {
        let dims = self.dims.clone();
        assert(dims@ =~= self.dims@);
        Shape { dims }
    }
}

/// How a tensor's elements stand in its storage.
#[derive(Debug)]
pub struct Layout {
    pub shape: Shape,
    pub stride: Vec<usize>,
    pub start_offset: usize,
}

/// The elements of `dims` stand row after row without gaps: along every
/// dimension with two or more entries the stride is the row-major one.
pub open spec fn contiguous(dims: Seq<usize>, stride: Seq<usize>) -> bool {
    &&& stride.len() == dims.len()
    &&& forall|i: int|
        0 <= i < dims.len() && #[trigger] dims[i] > 1 ==> stride[i] == row_major_stride(dims, i + 1)
}

/// The layout of a tensor whose elements stand row after row from the start.
pub open spec fn row_major(layout: Layout, dims: Seq<usize>) -> bool {
    &&& layout.shape@ == dims
    &&& layout.start_offset == 0
    &&& layout.stride@.len() == dims.len()
    &&& forall|i: int|
        0 <= i < dims.len() ==> #[trigger] layout.stride@[i] == row_major_stride(dims, i + 1)
}

/// A layout as it is printed.
pub open spec fn layout_text(dims: Seq<usize>, stride: Seq<usize>, start_offset: usize) -> Seq<char> {
    "Layout { shape: "@ + text::decimal_list(dims) + ", stride: "@ + text::decimal_list(stride)
        + ", start_offset: "@ + text::decimal(start_offset as nat) + " }"@
}

impl Layout {
    /// The layout of a tensor whose elements stand row after row from the
    /// start.
    pub fn row_after_row(shape: Shape) -> (layout: Layout)
        requires
            strides_fit(shape@),
        ensures
            row_major(layout, shape@),
            contiguous(layout.shape@, layout.stride@),
    {
        let rank: usize = shape.rank();
        let mut stride: Vec<usize> = vec![1usize; rank];
        let mut next: usize = 1;
        let mut i: usize = rank;
        while i > 0
            invariant
                i <= rank,
                rank == shape@.len(),
                stride@.len() == rank,
                strides_fit(shape@),
                next == row_major_stride(shape@, i as int),
                forall|j: int|
                    i <= j < rank ==> #[trigger] stride@[j] == row_major_stride(shape@, j + 1),
            decreases i,
        {
            i = i - 1;
            stride.set(i, next);
            proof {
                assert(row_major_stride(shape@, i as int) == shape@[i as int] as nat
                    * row_major_stride(shape@, i + 1));
                assert(row_major_stride(shape@, i as int) <= usize::MAX);
            }
            next = shape.dims()[i] * next;
        }
        Layout { shape, stride, start_offset: 0 }
    }

    /// The layout as it is printed.
    pub open spec fn spec_text(self) -> Seq<char> {
        layout_text(self.shape@, self.stride@, self.start_offset)
    }

    /// The layout as it is printed.
    pub fn text(&self) -> (text: String)
        ensures
            text@ == self.spec_text(),
    {
        let mut text = "Layout { shape: ".to_owned();
        text.append(self.shape.text().as_str());
        text.append(", stride: ");
        text.append(list_text(&self.stride).as_str());
        text.append(", start_offset: ");
        text.append(decimal_text(self.start_offset as u64).as_str());
        text.append(" }");
        text
    }

    /// Whether the elements stand row after row without gaps.
    pub fn is_contiguous(&self) -> (yes: bool)
        requires
            strides_fit(self.shape@),
        ensures
            yes == contiguous(self.shape@, self.stride@),
    {
        let dims = self.shape.dims();
        if dims.len() != self.stride.len() {
            return false;
        }
        let mut stride: usize = 1;
        let mut i: usize = dims.len();
        while i > 0
            invariant
                i <= dims@.len(),
                dims@ == self.shape@,
                self.stride@.len() == dims@.len(),
                strides_fit(dims@),
                stride == row_major_stride(dims@, i as int),
                forall|j: int|
                    i <= j < dims@.len() && #[trigger] dims@[j] > 1 ==> self.stride@[j]
                        == row_major_stride(dims@, j + 1),
            decreases i,
        {
            i = i - 1;
            if dims[i] > 1 && self.stride[i] != stride {
                return false;
            }
            proof {
                assert(row_major_stride(dims@, i as int) == dims@[i as int] as nat
                    * row_major_stride(dims@, i + 1));
                assert(row_major_stride(dims@, i as int) <= usize::MAX);
            }
            stride = dims[i] * stride;
        }
        true
    }
}

/// The number of elements is the product of the extents: none of them changes
/// it by its place, one is its own product, and two shapes put together multiply.
pub proof fn law_elements_multiply(left: Seq<usize>, right: Seq<usize>, single: usize)
    ensures
        elements(Seq::empty()) == 1,
        elements(seq![single]) == single,
        elements(left + right) == elements(left) * elements(right),
    decreases right.len(),
{
    assert(seq![single].drop_last() =~= Seq::<usize>::empty());
    assert(elements(seq![single]) == elements(Seq::<usize>::empty()) * single as nat);
    assert(1 * single as nat == single) by (nonlinear_arith);
    if right.len() == 0 {
        assert(left + right =~= left);
        assert(elements(left) * 1 == elements(left)) by (nonlinear_arith);
    } else {
        let shorter = right.drop_last();
        let all = left + right;
        law_elements_multiply(left, shorter, single);
        assert(all.drop_last() =~= left + shorter);
        assert(all.last() == right.last());
        assert((elements(left) * elements(shorter)) * right.last() as nat == elements(left) * (
        elements(shorter) * right.last() as nat)) by (nonlinear_arith);
    }
}

/// Row after row, a step along a dimension passes over as many elements as the
/// later dimensions hold.
pub proof fn law_strides_pass_over_the_later_dimensions(dims: Seq<usize>, i: int)
    requires
        0 <= i <= dims.len(),
    ensures
        row_major_stride(dims, i) == elements(dims.skip(i)),
    decreases dims.len() - i,
{
    if i == dims.len() {
        assert(dims.skip(i) =~= Seq::<usize>::empty());
    } else {
        law_strides_pass_over_the_later_dimensions(dims, i + 1);
        law_elements_multiply(seq![dims[i]], dims.skip(i + 1), dims[i]);
        assert(seq![dims[i]] + dims.skip(i + 1) =~= dims.skip(i));
    }
}

/// A layout that stands row after row starts at the first element, has a step of
/// one along its last dimension, and counts as contiguous.
pub proof fn law_rows_stand_one_after_another(shape: Shape, layout: Layout, contiguous: bool)
    requires
        call_ensures(Layout::row_after_row, (shape,), layout),
        call_ensures(Layout::is_contiguous, (&layout,), contiguous),
    ensures
        layout.shape@ == shape@,
        layout.start_offset == 0,
        layout.stride@.len() == shape@.len(),
        shape@.len() > 0 ==> layout.stride@[shape@.len() - 1] == 1,
        forall|i: int|
            0 <= i < shape@.len() ==> #[trigger] layout.stride@[i] == elements(shape@.skip(i + 1)),
        contiguous,
{
    assert forall|i: int| 0 <= i < shape@.len() implies #[trigger] layout.stride@[i] == elements(
        shape@.skip(i + 1),
    ) by {
        law_strides_pass_over_the_later_dimensions(shape@, i + 1);
    }
    if shape@.len() > 0 {
        let last = shape@.len() - 1;
        assert(shape@.skip(last + 1) =~= Seq::<usize>::empty());
        assert(layout.stride@[last] == elements(shape@.skip(last + 1)));
    }
}

/// A layout is contiguous exactly where it has a stride for each dimension, and
/// along each with more than one entry the stride passes over the later
/// dimensions.
pub proof fn law_contiguous_layouts_have_no_gaps(layout: &Layout, yes: bool)
    requires
        call_ensures(Layout::is_contiguous, (layout,), yes),
    ensures
        yes <==> {
            &&& layout.stride@.len() == layout.shape@.len()
            &&& forall|i: int|
                0 <= i < layout.shape@.len() && #[trigger] layout.shape@[i] > 1 ==> layout.stride@[i]
                    == elements(layout.shape@.skip(i + 1))
        },
{
    assert forall|i: int| 0 <= i < layout.shape@.len() implies row_major_stride(
        layout.shape@,
        i + 1,
    ) == #[trigger] elements(layout.shape@.skip(i + 1)) by {
        law_strides_pass_over_the_later_dimensions(layout.shape@, i + 1);
    }
}

/// A matrix has its rows first and its columns second; other shapes have not
/// two extents. The row width of any shape but a scalar's is its last extent.
pub proof fn law_extents_are_told_by_their_place(
    shape: &Shape,
    pair: Result<(usize, usize), Error>,
    width: Result<usize, Error>,
)
    requires
        call_ensures(Shape::dims2, (shape,), pair),
        call_ensures(Shape::last_dim, (shape,), width),
    ensures
        pair is Ok <==> shape@.len() == 2,
        pair is Ok ==> seq![pair->Ok_0.0, pair->Ok_0.1] == shape@,
        width is Ok <==> shape@.len() > 0,
        width is Ok ==> width->Ok_0 == shape@[shape@.len() - 1],
{
    if shape@.len() == 2 {
        assert(seq![shape@[0], shape@[1]] =~= shape@);
    }
}

/// Shapes and layouts are printed by their numbers, and a shape hands out the
/// extents that it was made of.
pub proof fn law_shapes_are_printed_by_their_extents(
    dims: Vec<usize>,
    shape: Shape,
    shown: String,
    rank: usize,
    layout: &Layout,
    printed: String,
)
    requires
        call_ensures(Shape::from_dims, (dims,), shape),
        call_ensures(Shape::text, (&shape,), shown),
        call_ensures(Shape::rank, (&shape,), rank),
        call_ensures(Layout::text, (layout,), printed),
    ensures
        shape@ == dims@,
        rank == dims@.len(),
        shown@ == "["@ + text::decimal_entries(dims@) + "]"@,
        printed@ == "Layout { shape: "@ + text::decimal_list(layout.shape@) + ", stride: "@
            + text::decimal_list(layout.stride@) + ", start_offset: "@ + text::decimal(
            layout.start_offset as nat,
        ) + " }"@,
{
}

/// Two shapes are the same where they have as many dimensions, and the same
/// extent in each.
pub proof fn law_same_shapes_have_the_same_extents(a: &Shape, b: &Shape, same: bool)
    requires
        call_ensures(Shape::same_dims, (a, b), same),
    ensures
        same <==> a@.len() == b@.len() && forall|i: int| 0 <= i < a@.len() ==> #[trigger] a@[i] == b@[i],
{
    if a@.len() == b@.len() && forall|i: int| 0 <= i < a@.len() ==> #[trigger] a@[i] == b@[i] {
        assert(a@ =~= b@);
    }
}

/// The elements are counted alike, where they can be: as the product of the
/// extents.
pub proof fn law_elements_are_counted_alike(shape: &Shape, count: usize, checked: Option<usize>)
    requires
        call_ensures(Shape::elem_count, (shape,), count),
        call_ensures(Shape::checked_elem_count, (shape,), checked),
        elements_fit(shape@),
    ensures
        checked == Some(count),
        count == elements(shape@),
{
}

} // verus!
