use crate::message::KEY_METADATA;
use vstd::prelude::*;

verus! {

/// What to do to the text buffer's metrics before laying out text at a
/// given scale.
#[derive(Clone, Copy, Debug, PartialEq, Eq, Structural)]
pub enum MetricsUpdate {
    /// First use: remember the scale, and create the buffer (with metrics
    /// for this scale) when there is none yet.
    Initialize { create_buffer: bool },
    /// The scale changed: drop the rasterised glyph caches, give the buffer
    /// metrics for the new scale, and remember it.
    Rescale,
    /// Same scale as before: nothing to do.
    Keep,
}

/// Decides how to bring the text buffer to a scale.
///
/// `same_scale` is `None` when no scale has been remembered yet, else
/// whether the remembered scale equals the requested one; `has_buffer` tells
/// whether a text buffer exists. A rescale needs the buffer.
pub fn plan_metrics_update(same_scale: Option<bool>, has_buffer: bool) -> (u: MetricsUpdate)
    requires
        same_scale == Some(false) ==> has_buffer,
    ensures
        u == match same_scale {
            None => MetricsUpdate::Initialize { create_buffer: !has_buffer },
            Some(false) => MetricsUpdate::Rescale,
            Some(true) => MetricsUpdate::Keep,
        },
{
    match same_scale {
        None => MetricsUpdate::Initialize { create_buffer: !has_buffer },
        Some(false) => MetricsUpdate::Rescale,
        Some(true) => MetricsUpdate::Keep,
    }
}

/// Whether the glyph with this metadata belongs to a highlighted key span.
pub open spec fn is_key_glyph(metadata: usize) -> bool {
    metadata == KEY_METADATA
}

/// Finds the glyphs of one layout line that the key highlight spans, given
/// each glyph's metadata in order: the first and the last key glyph.
pub fn highlight_range(metadata: &[usize]) -> (r: Option<(usize, usize)>)
    ensures
        r is None <==> forall|i: int| 0 <= i < metadata@.len() ==> !is_key_glyph(#[trigger] metadata@[i]),
        r matches Some((first, last)) ==> {
            &&& first <= last < metadata@.len()
            &&& is_key_glyph(metadata@[first as int])
            &&& is_key_glyph(metadata@[last as int])
            &&& forall|j: int| 0 <= j < first ==> !is_key_glyph(#[trigger] metadata@[j])
            &&& forall|j: int| last < j < metadata@.len() ==> !is_key_glyph(#[trigger] metadata@[j])
        },
{
    let mut first: Option<usize> = None;
    let mut last: usize = 0;
    let n = metadata.len();
    let mut i: usize = 0;
    while i < n
        invariant
            n == metadata@.len(),
            i <= n,
            first is None <==> forall|j: int| 0 <= j < i ==> !is_key_glyph(#[trigger] metadata@[j]),
            first matches Some(f) ==> {
                &&& f <= last < i
                &&& is_key_glyph(metadata@[f as int])
                &&& is_key_glyph(metadata@[last as int])
                &&& forall|j: int| 0 <= j < f ==> !is_key_glyph(#[trigger] metadata@[j])
                &&& forall|j: int| last < j < i ==> !is_key_glyph(#[trigger] metadata@[j])
            },
        decreases n - i,
    {
        if metadata[i] == KEY_METADATA {
            if first.is_none() {
                first = Some(i);
            }
            last = i;
        }
        i = i + 1;
    }
    match first {
        Some(f) => Some((f, last)),
        None => None,
    }
}

} // verus!
