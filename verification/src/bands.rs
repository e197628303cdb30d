//! Cutting a sample buffer into one band per bar.

use crate::NUM_BARS;
use vstd::prelude::*;

verus! {

/// The samples `start..end` of a buffer: what one bar is measured from.
#[derive(Clone, Copy, Debug, PartialEq, Eq, Structural)]
pub struct Span {
    pub start: usize,
    pub end: usize,
}

/// Width of a full band in a buffer of `len` samples: `len / NUM_BARS`, rounded up.
pub open spec fn chunk_len(len: int) -> int {
    (len + NUM_BARS - 1) / (NUM_BARS as int)
}

/// Where band `index` begins. Bands lie side by side from the front of the
/// buffer; one that would begin past the end begins at the end.
pub open spec fn span_start(len: int, index: int) -> int {
    if index * chunk_len(len) < len {
        index * chunk_len(len)
    } else {
        len
    }
}

/// Where band `index` ends: a full width after its beginning, or at the end of
/// the buffer if that comes first.
pub open spec fn span_end(len: int, index: int) -> int {
    span_start(len, index + 1)
}

impl Span {
    /// Number of samples in the span.
    pub open spec fn count(self) -> int {
        self.end - self.start
    }

    /// Whether this is the span of band `index` in a buffer of `len` samples.
    pub open spec fn is_band(self, len: int, index: int) -> bool {
        self.start == span_start(len, index) && self.end == span_end(len, index)
    }

    /// Whether the span holds no sample.
    pub fn is_empty(&self) -> (empty: bool)
        ensures
            empty == (self.count() <= 0),
    {
        self.start >= self.end
    }
}

/// Width of a full band in a buffer of `len` samples.
pub fn chunk_size(len: usize) -> (size: usize)
    ensures
        size == chunk_len(len as int),
{
    let whole: usize = len / NUM_BARS;
    if len % NUM_BARS == 0 {
        whole
    } else {
        whole + 1
    }
}

/// The smaller of `index * width` and `len`, found without leaving `usize`.
fn offset(len: usize, width: usize, index: usize) -> (at: usize)
    ensures
        at == if index * width < len { index * width } else { len as int },
{
    if width == 0 {
        assert(index * width == 0) by (nonlinear_arith)
            requires
                width == 0,
        ;
        if len > 0 { 0 } else { len }
    } else if index > len / width {
        assert(index * width >= len) by (nonlinear_arith)
            requires
                width > 0,
                index > len / width,
        ;
        len
    } else {
        assert(index * width <= len) by (nonlinear_arith)
            requires
                width > 0,
                index <= len / width,
        ;
        index * width
    }
}

/// The span of band `index` in a buffer of `len` samples. Past the last band
/// of a frame the spans go on as they would: empty, at the back of the buffer.
pub fn span_at(len: usize, index: usize) -> (span: Span)
    ensures
        span.is_band(len as int, index as int),
        span.start <= span.end <= len,
{
    let width: usize = chunk_size(len);
    let start: usize = offset(len, width, index);
    proof {
        assert((index + 1) * width == index * width + width) by (nonlinear_arith);
    }
    let end: usize = if len - start <= width {
        len
    } else {
        start + width
    };
    Span { start, end }
}

/// Cuts a buffer of `len` samples into its `NUM_BARS` bands, in order. An
/// empty buffer has no bands: there is nothing to draw from it.
pub fn partition(len: usize) -> (bands: Option<[Span; NUM_BARS]>)
    ensures
        bands is None <==> len == 0,
        bands matches Some(spans) ==> forall|i: int|
            0 <= i < NUM_BARS ==> (#[trigger] spans[i]).is_band(len as int, i) && spans[i].start
                <= spans[i].end <= len,
{
    if len == 0 {
        return None;
    }
    let mut spans: [Span; NUM_BARS] = [Span { start: 0, end: 0 }; NUM_BARS];
    let mut index: usize = 0;
    while index < NUM_BARS
        invariant
            index <= NUM_BARS,
            forall|i: int|
                0 <= i < index ==> (#[trigger] spans[i]).is_band(len as int, i) && spans[i].start
                    <= spans[i].end <= len,
        decreases NUM_BARS - index,
    {
        spans[index] = span_at(len, index);
        index += 1;
    }
    Some(spans)
}

/// Band `index` lies inside the buffer, is at most `chunk_len(len)` wide, and
/// is exactly that wide unless it reaches the back of the buffer.
pub proof fn lemma_band_width(len: int, index: int)
    requires
        0 <= len,
        0 <= index,
    ensures
        0 <= span_start(len, index) <= span_end(len, index) <= len,
        span_end(len, index) - span_start(len, index) <= chunk_len(len),
        span_end(len, index) < len ==> span_end(len, index) - span_start(len, index)
            == chunk_len(len),
{
    let width = chunk_len(len);
    assert(0 <= index * width && (index + 1) * width == index * width + width)
        by (nonlinear_arith)
        requires
            0 <= index,
            0 <= width,
    ;
}

/// The bands tile the buffer: the first begins at the front, each begins where
/// the one before it ended, and the last ends at the back.
pub proof fn lemma_bands_tile(len: int)
    requires
        0 <= len,
    ensures
        span_start(len, 0) == 0,
        span_end(len, NUM_BARS - 1) == len,
        forall|i: int| 0 <= i ==> #[trigger] span_end(len, i) == span_start(len, i + 1),
        forall|i: int| 0 <= i ==> 0 <= #[trigger] span_start(len, i) <= span_end(len, i) <= len,
{
    assert(NUM_BARS * chunk_len(len) >= len);
    assert forall|i: int| 0 <= i implies 0 <= #[trigger] span_start(len, i) <= span_end(len, i)
        <= len by {
        lemma_band_width(len, i);
    }
}

} // verus!
