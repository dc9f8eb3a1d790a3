//! Filtering and serialization of the evaluated samples.
//!
//! Evaluating the compiled formula is floating-point work and happens
//! outside the verified library; each sample comes back as the IEEE 754
//! bit pattern of its y value together with the fixed-precision texts of
//! both coordinates. The library owns every decision made afterwards:
//! which samples survive (only those whose y is a normal float: neither
//! NaN, nor infinite, nor subnormal, nor zero) and exactly what string
//! leaves the pipeline.

use vstd::prelude::*;
use vstd::string::StringExecFns;

verus! {

/// One evaluated sample: the y value's bit pattern, which decides
/// retention, and the two coordinates rendered with eight digits after
/// the decimal point, which the serializer emits verbatim.
pub struct SamplePoint {
    /// IEEE 754 bit pattern of the sample's y value.
    pub y_bits: u64,
    /// The abscissa, rendered with eight decimal digits.
    pub x_text: String,
    /// The y value, rendered with eight decimal digits.
    pub y_text: String,
}

impl Clone for SamplePoint {
    /// An exact copy, so that filtering can keep a sample by value.
    fn clone(&self) -> (r: Self)
        ensures
            r == *self,
    {
        SamplePoint {
            y_bits: self.y_bits,
            x_text: self.x_text.clone(),
            y_text: self.y_text.clone(),
        }
    }
}

/// Whether a 64-bit float with this bit pattern is a normal number:
/// its biased exponent field is neither all zeros (zero and subnormal
/// values) nor all ones (infinities and NaN).
pub open spec fn is_normal_bits(b: u64) -> bool {
    ((b >> 52) & 0x7ff) != 0 && ((b >> 52) & 0x7ff) != 0x7ff
}

/// The retention rule of the sampler: a point survives exactly when its
/// y value is a normal float. A y that is NaN, infinite, subnormal or
/// exactly zero silently drops the point; nothing ever fails here.
pub fn point_is_retained(y_bits: u64) -> (r: bool)
    ensures
        r == is_normal_bits(y_bits),
{
    let e = (y_bits >> 52) & 0x7ff;
    e != 0 && e != 0x7ff
}

/// The samples that survive the retention rule, in sample order.
pub open spec fn retained_seq(s: Seq<SamplePoint>) -> Seq<SamplePoint>
    decreases s.len(),
{
    if s.len() == 0 {
        Seq::empty()
    } else {
        let prefix = retained_seq(s.drop_last());
        if is_normal_bits(s.last().y_bits) {
            prefix.push(s.last())
        } else {
            prefix
        }
    }
}

/// The record a sample is rendered as: both coordinate texts wrapped in
/// a point literal.
pub open spec fn record_text(p: SamplePoint) -> Seq<char> {
    "{x:"@ + p.x_text@ + ",y:"@ + p.y_text@ + "}"@
}

/// All records joined with single commas, in order, with no trailing
/// separator; no samples produce the empty string.
pub open spec fn joined(s: Seq<SamplePoint>) -> Seq<char>
    decreases s.len(),
{
    if s.len() == 0 {
        Seq::empty()
    } else if s.len() == 1 {
        record_text(s[0])
    } else {
        joined(s.drop_last()) + ","@ + record_text(s.last())
    }
}

/// Keeps exactly the samples whose y value is a normal float, in order.
pub fn retained_points(samples: &Vec<SamplePoint>) -> (r: Vec<SamplePoint>)
    ensures
        r@ == retained_seq(samples@),
{
    let mut out: Vec<SamplePoint> = Vec::new();
    let n = samples.len();
    let mut i: usize = 0;
    assert(samples@.take(0) =~= Seq::<SamplePoint>::empty());
    while i < n
        invariant
            n == samples@.len(),
            i <= n,
            out@ == retained_seq(samples@.take(i as int)),
        decreases n - i,
    {
        let p = &samples[i];
        if point_is_retained(p.y_bits) {
            out.push(p.clone());
        }
        proof {
            assert(samples@.take(i + 1).drop_last() =~= samples@.take(i as int));
            assert(samples@.take(i + 1).last() == samples@[i as int]);
        }
        i += 1;
    }
    proof {
        assert(samples@.take(n as int) =~= samples@);
    }
    out
}

/// Renders the given points as comma-separated records.
pub fn render_points(points: &Vec<SamplePoint>) -> (r: String)
    ensures
        r@ == joined(points@),
{
    let mut out: String = String::new();
    let n = points.len();
    let mut i: usize = 0;
    assert(points@.take(0) =~= Seq::<SamplePoint>::empty());
    while i < n
        invariant
            n == points@.len(),
            i <= n,
            out@ == joined(points@.take(i as int)),
        decreases n - i,
    {
        if i > 0 {
            out.append(",");
        }
        out.append("{x:");
        out.append(points[i].x_text.as_str());
        out.append(",y:");
        out.append(points[i].y_text.as_str());
        out.append("}");
        proof {
            assert(points@.take(i + 1).drop_last() =~= points@.take(i as int));
            assert(points@.take(i + 1).last() == points@[i as int]);
            assert(out@ =~= joined(points@.take(i + 1)));
        }
        i += 1;
    }
    proof {
        assert(points@.take(n as int) =~= points@);
    }
    out
}

/// The serializer of the pipeline: filters the evaluated samples by the
/// retention rule and joins the survivors' records.
pub fn serialize_samples(samples: &Vec<SamplePoint>) -> (r: String)
    ensures
        r@ == joined(retained_seq(samples@)),
{
    let kept = retained_points(samples);
    render_points(&kept)
}

/// Law: the retention filter is exhaustive. Every sample that survives
/// it has a y bit pattern that classifies as a normal float, so no
/// retained y is NaN, infinite, subnormal or exactly zero.
pub proof fn lemma_retained_all_normal(s: Seq<SamplePoint>)
    ensures
        forall|i: int|
            0 <= i < retained_seq(s).len() ==> is_normal_bits(
                #[trigger] retained_seq(s)[i].y_bits,
            ),
    decreases s.len(),
{
    if s.len() > 0 {
        lemma_retained_all_normal(s.drop_last());
        let prefix = retained_seq(s.drop_last());
        assert forall|i: int|
            0 <= i < retained_seq(s).len() implies is_normal_bits(
            #[trigger] retained_seq(s)[i].y_bits,
        ) by {
            if is_normal_bits(s.last().y_bits) {
                assert(retained_seq(s) == prefix.push(s.last()));
                if i < prefix.len() {
                    assert(retained_seq(s)[i] == prefix[i]);
                } else {
                    assert(retained_seq(s)[i] == s.last());
                }
            } else {
                assert(retained_seq(s) == prefix);
            }
        }
    }
}

/// Law: where every sample's y value is normal, nothing is dropped: the
/// serializer sees all samples, one record each, in sample order.
pub proof fn lemma_all_normal_kept(s: Seq<SamplePoint>)
    requires
        forall|i: int| 0 <= i < s.len() ==> is_normal_bits(#[trigger] s[i].y_bits),
    ensures
        retained_seq(s) == s,
    decreases s.len(),
{
    if s.len() > 0 {
        assert forall|i: int|
            0 <= i < s.drop_last().len() implies is_normal_bits(
            #[trigger] s.drop_last()[i].y_bits,
        ) by {
            assert(s.drop_last()[i] == s[i]);
        }
        lemma_all_normal_kept(s.drop_last());
        assert(is_normal_bits(s.last().y_bits));
        assert(retained_seq(s) =~= s);
    }
}

/// Law: the serialization of at least one point starts with the first
/// point's record, so the first retained sample leads the output.
pub proof fn lemma_first_record_leads(s: Seq<SamplePoint>)
    requires
        s.len() > 0,
    ensures
        joined(s).len() >= record_text(s[0]).len(),
        joined(s).subrange(0, record_text(s[0]).len() as int) == record_text(s[0]),
    decreases s.len(),
{
    if s.len() > 1 {
        lemma_first_record_leads(s.drop_last());
        assert(s.drop_last()[0] == s[0]);
        assert(joined(s).subrange(0, record_text(s[0]).len() as int) =~= record_text(s[0]));
    } else {
        assert(joined(s).subrange(0, record_text(s[0]).len() as int) =~= record_text(s[0]));
    }
}

/// Law: zero samples serialize to the empty string, whatever the
/// formula and range were.
pub proof fn lemma_empty_serialization()
    ensures
        joined(retained_seq(Seq::<SamplePoint>::empty())) == Seq::<char>::empty(),
{
}

} // verus!
