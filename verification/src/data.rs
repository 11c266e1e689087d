//! Derived per-layer metadata and the rules that produce it: defaulting for
//! missing extents and spatial references, and the degradation policy of the
//! display-bbox projector.

use vstd::prelude::*;

verus! {

/// Axis-aligned bounding box in a layer's native coordinate reference
/// system. Each coordinate is an IEEE 754 binary64 value carried as its bit
/// pattern; the all-zero value (the bit pattern of `+0.0` is zero) is the
/// sentinel meaning "no extent available", not a geographic location.
#[derive(Clone, Copy, Debug, PartialEq, Eq, Structural)]
pub struct Extent {
    pub xmin_bits: u64,
    pub ymin_bits: u64,
    pub xmax_bits: u64,
    pub ymax_bits: u64,
}

impl Extent {
    /// The sentinel value substituted when a layer's extent cannot be read.
    pub open spec fn zero_spec() -> Extent {
        Extent { xmin_bits: 0, ymin_bits: 0, xmax_bits: 0, ymax_bits: 0 }
    }

    pub open spec fn is_zero_spec(self) -> bool {
        self == Extent::zero_spec()
    }

    /// The extent that stands for "nothing could be read".
    pub fn zero() -> (r: Extent)
        ensures
            r == Extent::zero_spec(),
    {
        Extent { xmin_bits: 0, ymin_bits: 0, xmax_bits: 0, ymax_bits: 0 }
    }

    pub fn is_zero(&self) -> (r: bool)
        ensures
            r == self.is_zero_spec(),
    {
        self.xmin_bits == 0 && self.ymin_bits == 0 && self.xmax_bits == 0 && self.ymax_bits == 0
    }

    /// What a raw extent reading stands for: the reading itself when there
    /// was one, the zero sentinel when there was none.
    pub open spec fn effective_spec(raw: Option<Extent>) -> Extent {
        match raw {
            Option::Some(e) => e,
            Option::None => Extent::zero_spec(),
        }
    }

    /// Defaulting rule for the extent: a layer whose extent cannot be read
    /// (no geometries, unsupported driver) still appears in the catalog,
    /// with the zero sentinel in place of an extent.
    pub fn from_raw(raw: Option<Extent>) -> (r: Extent)
        ensures
            r == Extent::effective_spec(raw),
    {
        match raw {
            Option::Some(e) => e,
            Option::None => Extent::zero(),
        }
    }
}

/// Description of a layer's spatial reference system. A layer that carries
/// no reference system is represented by the descriptor whose three strings
/// are all empty.
#[derive(Debug)]
pub struct Srs {
    pub name: String,
    pub wkt: String,
    pub proj4: String,
}

impl Srs {
    /// The descriptor of a layer without a spatial reference system.
    pub open spec fn is_absent_spec(self) -> bool {
        self.name@.len() == 0 && self.wkt@.len() == 0 && self.proj4@.len() == 0
    }

    /// The default descriptor, used when a layer carries no reference system.
    pub fn empty() -> (r: Srs)
        ensures
            r.is_absent_spec(),
    {
        Srs { name: String::new(), wkt: String::new(), proj4: String::new() }
    }

    pub fn is_absent(&self) -> (r: bool)
        ensures
            r == self.is_absent_spec(),
    {
        self.name.as_str().is_empty() && self.wkt.as_str().is_empty()
            && self.proj4.as_str().is_empty()
    }

    /// Defaulting rule for the reference system: absence is represented by
    /// the all-empty descriptor, never by an error.
    pub fn from_raw(raw: Option<Srs>) -> (r: Srs)
        ensures
            (raw matches Option::Some(s) ==> r == s),
            raw is None ==> r.is_absent_spec(),
    {
        match raw {
            Option::Some(s) => s,
            Option::None => Srs::empty(),
        }
    }
}

impl Clone for Srs {
    fn clone(&self) -> (r: Srs)
        ensures
            r == *self,
    {
        Srs { name: self.name.clone(), wkt: self.wkt.clone(), proj4: self.proj4.clone() }
    }
}

/// Bounding box in the canonical display reference system (WGS84), carried
/// as IEEE 754 binary64 bit patterns like `Extent`. The all-zero value is
/// the sentinel for "no display bbox could be derived".
#[derive(Clone, Copy, Debug, PartialEq, Eq, Structural)]
pub struct PositionMap {
    pub xmin_bits: u64,
    pub ymin_bits: u64,
    pub xmax_bits: u64,
    pub ymax_bits: u64,
}

impl PositionMap {
    /// The sentinel substituted whenever reprojection is impossible or fails.
    pub open spec fn zero_spec() -> PositionMap {
        PositionMap { xmin_bits: 0, ymin_bits: 0, xmax_bits: 0, ymax_bits: 0 }
    }

    pub open spec fn is_zero_spec(self) -> bool {
        self == PositionMap::zero_spec()
    }

    pub fn zero() -> (r: PositionMap)
        ensures
            r == PositionMap::zero_spec(),
    {
        PositionMap { xmin_bits: 0, ymin_bits: 0, xmax_bits: 0, ymax_bits: 0 }
    }

    pub fn is_zero(&self) -> (r: bool)
        ensures
            r == self.is_zero_spec(),
    {
        self.xmin_bits == 0 && self.ymin_bits == 0 && self.xmax_bits == 0 && self.ymax_bits == 0
    }
}

/// Whether a transform may be attempted at all: it takes a defined source
/// reference system and a real (non-sentinel) extent.
pub open spec fn wants_transform_spec(extent: Extent, srs: Srs) -> bool {
    !extent.is_zero_spec() && !srs.is_absent_spec()
}

/// Decides whether the external reprojection should be attempted for a
/// layer: only when the extent is real and the reference system is defined.
pub fn should_transform(extent: &Extent, srs: &Srs) -> (r: bool)
    ensures
        r == wants_transform_spec(*extent, *srs),
{
    !extent.is_zero() && !srs.is_absent()
}

/// The display bbox that the projector owes for a given extent, reference
/// system, and outcome of the external transform: the zero sentinel when no
/// transform may be attempted or the transform failed, the transformed
/// envelope otherwise.
pub open spec fn projected_spec(
    extent: Extent,
    srs: Srs,
    transformed: Option<PositionMap>,
) -> PositionMap {
    if !wants_transform_spec(extent, srs) {
        PositionMap::zero_spec()
    } else {
        match transformed {
            Option::Some(t) => t,
            Option::None => PositionMap::zero_spec(),
        }
    }
}

/// Degradation policy of the coordinate projector. `transformed` is the
/// outcome of the external envelope transform to WGS84, where one was run;
/// whatever it holds, a missing reference system or a sentinel extent yields
/// the zero bbox, and a failed transform degrades to the zero bbox instead
/// of interrupting the session.
pub fn project_to_display(
    extent: &Extent,
    srs: &Srs,
    transformed: Option<PositionMap>,
) -> (r: PositionMap)
    ensures
        r == projected_spec(*extent, *srs, transformed),
{
    if !should_transform(extent, srs) {
        PositionMap::zero()
    } else {
        match transformed {
            Option::Some(t) => t,
            Option::None => PositionMap::zero(),
        }
    }
}

/// Raw per-layer readings handed in by the boundary that walks the opened
/// dataset: the layer's name and feature count, the extent and reference
/// system as read (absent where the read failed or nothing was defined),
/// and the outcome of the external envelope transform to WGS84, where one
/// was run.
#[derive(Debug)]
pub struct LayerRecord {
    pub name: String,
    pub extent: Option<Extent>,
    pub srs: Option<Srs>,
    pub transformed: Option<PositionMap>,
    pub feature_number: u64,
}

/// Immutable metadata snapshot of one layer, derived once at catalog load.
#[derive(Debug)]
pub struct LayerInfo {
    pub name: String,
    pub extent: Extent,
    pub position_map: PositionMap,
    pub srs: Srs,
    pub feature_number: u64,
}

impl Clone for LayerInfo {
    fn clone(&self) -> (r: LayerInfo)
        ensures
            r == *self,
    {
        LayerInfo {
            name: self.name.clone(),
            extent: self.extent,
            position_map: self.position_map,
            srs: self.srs.clone(),
            feature_number: self.feature_number,
        }
    }
}

impl LayerInfo {
    /// How a snapshot relates to the raw readings it was derived from: the
    /// name and count are taken as read, the extent and reference system
    /// are defaulted where absent, and the display bbox follows the
    /// projector's degradation policy applied to the defaulted fields.
    pub open spec fn derived_from_spec(info: LayerInfo, rec: LayerRecord) -> bool {
        &&& info.name@ == rec.name@
        &&& info.feature_number == rec.feature_number
        &&& info.extent == Extent::effective_spec(rec.extent)
        &&& (rec.srs matches Option::Some(s) ==> info.srs == s)
        &&& (rec.srs is None ==> info.srs.is_absent_spec())
        &&& info.position_map == projected_spec(info.extent, info.srs, rec.transformed)
    }

    /// Derives the metadata snapshot of one layer from its raw readings,
    /// applying every defaulting rule; no reading can make this fail.
    pub fn from_record(rec: &LayerRecord) -> (r: LayerInfo)
        ensures
            LayerInfo::derived_from_spec(r, *rec),
    {
        let extent = Extent::from_raw(rec.extent);
        let srs = match &rec.srs {
            Option::Some(s) => s.clone(),
            Option::None => Srs::empty(),
        };
        let position_map = project_to_display(&extent, &srs, rec.transformed);
        LayerInfo {
            name: rec.name.clone(),
            extent,
            position_map,
            srs,
            feature_number: rec.feature_number,
        }
    }

    /// Derives the whole catalog in one eager pass, one snapshot per layer,
    /// in the dataset's native order, which is preserved.
    pub fn from_records(records: &Vec<LayerRecord>) -> (r: Vec<LayerInfo>)
        ensures
            r@.len() == records@.len(),
            forall|i: int|
                0 <= i < records@.len() ==> #[trigger] LayerInfo::derived_from_spec(
                    r@[i],
                    records@[i],
                ),
    {
        let mut out: Vec<LayerInfo> = Vec::new();
        let mut i: usize = 0;
        while i < records.len()
            invariant
                i <= records@.len(),
                out@.len() == i,
                forall|j: int|
                    0 <= j < i ==> #[trigger] LayerInfo::derived_from_spec(
                        out@[j],
                        records@[j],
                    ),
            decreases records@.len() - i,
        {
            out.push(LayerInfo::from_record(&records[i]));
            i = i + 1;
        }
        out
    }
}

/// A layer with no readable extent (for instance one without geometries)
/// keeps the zero extent, and its display bbox degrades to the zero bbox,
/// whatever the reference system and whatever the external transform
/// returned.
pub proof fn lemma_missing_extent_defaults(rec: LayerRecord, info: LayerInfo)
    requires
        rec.extent is None,
        LayerInfo::derived_from_spec(info, rec),
    ensures
        info.extent.is_zero_spec(),
        info.position_map.is_zero_spec(),
{
}

/// A layer without a spatial reference system keeps the all-empty
/// descriptor, and its display bbox degrades to the zero bbox, whatever
/// extent it has and whatever the external transform returned.
pub proof fn lemma_missing_srs_defaults(rec: LayerRecord, info: LayerInfo)
    requires
        rec.srs is None,
        LayerInfo::derived_from_spec(info, rec),
    ensures
        info.srs.is_absent_spec(),
        info.position_map.is_zero_spec(),
{
}

} // verus!
