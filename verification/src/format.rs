//! Choice of the surface's pixel format from the formats a surface reports.

use vstd::prelude::*;

verus! {

/// `wgpu::TextureFormat`, carried through as an opaque value.
#[verifier::external_type_specification]
#[verifier::external_body]
pub struct ExTextureFormat(wgpu::TextureFormat);

/// `wgpu::CompositeAlphaMode`, carried through as an opaque value.
#[verifier::external_type_specification]
#[verifier::external_body]
pub struct ExCompositeAlphaMode(wgpu::CompositeAlphaMode);

/// What `wgpu::TextureFormat::is_srgb` answers for a format: whether its
/// colour encoding is non-linear (display-referred).
pub uninterp spec fn format_is_srgb(format: wgpu::TextureFormat) -> bool;

/// Calls `wgpu::TextureFormat::is_srgb`. The answer is a function of the
/// format alone; the contract gives it its name and claims nothing more.
#[verifier::external_body]
fn is_srgb(format: &wgpu::TextureFormat) -> (r: bool)
    ensures
        r == format_is_srgb(*format),
{
    format.is_srgb()
}

/// The position of the first format with a non-linear encoding among the
/// first `n` formats, or `n` where there is none.
pub open spec fn first_srgb(formats: Seq<wgpu::TextureFormat>, n: int) -> int
    decreases n,
{
    if n <= 0 {
        0
    } else {
        let before = first_srgb(formats, n - 1);
        if before < n - 1 {
            before
        } else if format_is_srgb(formats[n - 1]) {
            n - 1
        } else {
            n
        }
    }
}

/// The position of the chosen format: the first with a non-linear encoding
/// in the reported order, else the first of the list.
pub open spec fn preferred_index(formats: Seq<wgpu::TextureFormat>) -> int {
    let first = first_srgb(formats, formats.len() as int);
    if first < formats.len() {
        first
    } else {
        0
    }
}

/// `first_srgb` is what its name says: nothing before it is non-linear, and
/// it is itself non-linear unless it is the bound.
pub proof fn lemma_first_srgb(formats: Seq<wgpu::TextureFormat>, n: int)
    requires
        0 <= n <= formats.len(),
    ensures
        0 <= first_srgb(formats, n) <= n,
        first_srgb(formats, n) < n ==> format_is_srgb(formats[first_srgb(formats, n)]),
        forall|j: int| 0 <= j < first_srgb(formats, n) ==> !format_is_srgb(#[trigger] formats[j]),
    decreases n,
{
    if n > 0 {
        lemma_first_srgb(formats, n - 1);
    }
}

/// The chosen position is the first non-linear format where the list has
/// one, and the head of the list where it has none.
pub proof fn lemma_preferred_index(formats: Seq<wgpu::TextureFormat>)
    requires
        formats.len() > 0,
    ensures
        0 <= preferred_index(formats) < formats.len(),
        forall|j: int| 0 <= j < preferred_index(formats) ==> !format_is_srgb(#[trigger] formats[j]),
        (exists|j: int| 0 <= j < formats.len() && format_is_srgb(#[trigger] formats[j]))
            ==> format_is_srgb(formats[preferred_index(formats)]),
        (forall|j: int| 0 <= j < formats.len() ==> !format_is_srgb(#[trigger] formats[j]))
            ==> preferred_index(formats) == 0,
{
    lemma_first_srgb(formats, formats.len() as int);
}

/// The choice depends on nothing but which formats are non-linear, in
/// order: two lists that agree on that give the same position.
pub proof fn lemma_preferred_index_deterministic(
    a: Seq<wgpu::TextureFormat>,
    b: Seq<wgpu::TextureFormat>,
)
    requires
        a.len() == b.len(),
        forall|j: int| 0 <= j < a.len() ==> format_is_srgb(#[trigger] a[j]) == format_is_srgb(b[j]),
    ensures
        preferred_index(a) == preferred_index(b),
{
    lemma_first_srgb_agrees(a, b, a.len() as int);
}

proof fn lemma_first_srgb_agrees(
    a: Seq<wgpu::TextureFormat>,
    b: Seq<wgpu::TextureFormat>,
    n: int,
)
    requires
        0 <= n <= a.len(),
        a.len() == b.len(),
        forall|j: int| 0 <= j < a.len() ==> format_is_srgb(#[trigger] a[j]) == format_is_srgb(b[j]),
    ensures
        first_srgb(a, n) == first_srgb(b, n),
    decreases n,
{
    if n > 0 {
        lemma_first_srgb_agrees(a, b, n - 1);
    }
}

/// Finds the position of the format to configure the surface with.
pub fn select_format_index(formats: &Vec<wgpu::TextureFormat>) -> (r: usize)
    requires
        formats.len() > 0,
    ensures
        r == preferred_index(formats@),
        r < formats.len(),
{
    let mut i: usize = 0;
    while i < formats.len()
        invariant
            0 <= i <= formats.len(),
            first_srgb(formats@, i as int) == i,
        decreases formats.len() - i,
    {
        if is_srgb(&formats[i]) {
            proof {
                lemma_first_srgb_stable(formats@, i as int + 1, formats.len() as int);
            }
            return i;
        }
        i += 1;
    }
    0
}

/// Once a non-linear format has been found, a longer prefix finds the same.
proof fn lemma_first_srgb_stable(formats: Seq<wgpu::TextureFormat>, n: int, m: int)
    requires
        0 <= n <= m,
        first_srgb(formats, n) < n,
    ensures
        first_srgb(formats, m) == first_srgb(formats, n),
    decreases m - n,
{
    if n < m {
        lemma_first_srgb_stable(formats, n, m - 1);
    }
}

/// Picks the format to configure the surface with: the first of `formats`
/// with a non-linear colour encoding, or the first of all where none has one.
pub fn select_format(formats: &Vec<wgpu::TextureFormat>) -> (r: wgpu::TextureFormat)
    requires
        formats.len() > 0,
    ensures
        r == formats@[preferred_index(formats@)],
{
    let i = select_format_index(formats);
    formats[i]
}

} // verus!
