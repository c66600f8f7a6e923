//! Input records for one simulation run, their display-label table, and the
//! pre-flight validation of a configuration.
//!
//! The records are immutable plain values: counts are `usize`, every physical
//! quantity is the `u64` bit pattern of an IEEE-754 binary64 number (see
//! `bits`). Display labels are not stored in the records themselves; they are
//! an explicit table keyed by [`ParamField`], so a label is generated only for
//! presentation and never used as a lookup key.

use vstd::prelude::*;
use crate::bits::spec_is_positive_finite;
use crate::bits::is_positive_finite;

verus! {

/// Material and physical constants shared by all pipes.
///
/// Every field is a binary64 bit pattern.
#[derive(Clone, Copy, Debug, PartialEq, Eq, Structural)]
pub struct GeneralParam {
    /// Water density (kg/m3).
    pub water_dens: u64,
    /// Water thermal conductivity (W/mK).
    pub water_cond: u64,
    /// Water specific heat (J/kgK).
    pub water_spec: u64,
    /// Water viscosity (Pa s).
    pub water_visc: u64,
    /// Copper thermal conductivity (W/mK).
    pub copper_cond: u64,
    /// PCM latent heat (J/kg).
    pub pcm_latent: u64,
    /// PCM density (kg/m3).
    pub pcm_dens: u64,
    /// Nusselt number (-).
    pub nusscelt: u64,
    /// PCM thermal conductivity (W/mK).
    pub pcm_cond: u64,
    /// Gravitational acceleration (m/s2).
    pub g: u64,
}

/// Discretization and boundary configuration of one run.
#[derive(Clone, Copy, Debug, PartialEq, Eq, Structural)]
pub struct CalcParam {
    /// Number of axial mesh cells per pipe.
    pub mesh_count: usize,
    /// Time step (s), as a binary64 bit pattern.
    pub time_step: u64,
    /// Number of entries of every output series, the initial condition included.
    pub calculation_step: usize,
    /// Pipe length (m), as a binary64 bit pattern.
    pub pipe_length: u64,
    /// Pipe outer diameter (m), as a binary64 bit pattern.
    pub pipe_outdir: u64,
    /// Pipe inner diameter (m), as a binary64 bit pattern.
    pub pipe_indir: u64,
    /// Initial PCM shell thickness (m), as a binary64 bit pattern.
    pub pcm_init_thickness: u64,
    /// Initial water temperature (deg C), as a binary64 bit pattern.
    pub water_init_temp: u64,
    /// PCM source temperature (deg C), as a binary64 bit pattern.
    pub pcm_temp: u64,
}

/// One configuration class of parallel, identical pipes.
#[derive(Clone, Copy, Debug, PartialEq, Eq, Structural)]
pub struct PipeTypeParam {
    /// Pressure loss over the pipe (MPa), as a binary64 bit pattern.
    pub pressure_loss: u64,
    /// Number of physical pipes of this type.
    pub pipe_count: usize,
}

impl Default for GeneralParam {
    /// All-zero constants, to be filled in by the caller.
    fn default() -> (r: GeneralParam)
        ensures
            r == (GeneralParam {
                water_dens: 0u64,
                water_cond: 0u64,
                water_spec: 0u64,
                water_visc: 0u64,
                copper_cond: 0u64,
                pcm_latent: 0u64,
                pcm_dens: 0u64,
                nusscelt: 0u64,
                pcm_cond: 0u64,
                g: 0u64,
            }),
    {
        GeneralParam {
            water_dens: 0,
            water_cond: 0,
            water_spec: 0,
            water_visc: 0,
            copper_cond: 0,
            pcm_latent: 0,
            pcm_dens: 0,
            nusscelt: 0,
            pcm_cond: 0,
            g: 0,
        }
    }
}

impl Default for CalcParam {
    /// An all-zero configuration, to be filled in by the caller.
    fn default() -> (r: CalcParam)
        ensures
            r == (CalcParam {
                mesh_count: 0usize,
                time_step: 0u64,
                calculation_step: 0usize,
                pipe_length: 0u64,
                pipe_outdir: 0u64,
                pipe_indir: 0u64,
                pcm_init_thickness: 0u64,
                water_init_temp: 0u64,
                pcm_temp: 0u64,
            }),
    {
        CalcParam {
            mesh_count: 0,
            time_step: 0,
            calculation_step: 0,
            pipe_length: 0,
            pipe_outdir: 0,
            pipe_indir: 0,
            pcm_init_thickness: 0,
            water_init_temp: 0,
            pcm_temp: 0,
        }
    }
}

impl Default for PipeTypeParam {
    /// A pipe type with no pressure loss and no pipes.
    fn default() -> (r: PipeTypeParam)
        ensures
            r == (PipeTypeParam { pressure_loss: 0u64, pipe_count: 0usize }),
    {
        PipeTypeParam { pressure_loss: 0, pipe_count: 0 }
    }
}

/// Stable key of one configuration field, across all three input records.
///
/// Display labels are looked up by this key, never the other way round.
#[derive(Clone, Copy, Debug, PartialEq, Eq, Structural)]
pub enum ParamField {
    MeshCount,
    TimeStep,
    CalculationStep,
    PipeLength,
    PipeOutdir,
    PipeIndir,
    PcmInitThickness,
    WaterInitTemp,
    PcmTemp,
    WaterDens,
    WaterCond,
    WaterSpec,
    WaterVisc,
    CopperCond,
    PcmLatent,
    PcmDens,
    Nusscelt,
    PcmCond,
    Gravity,
    PressureLoss,
    PipeCount,
}

/// The semantic type of a configuration field: a plain count, or a physical
/// measure carried as a binary64 bit pattern.
#[derive(Clone, Copy, Debug, PartialEq, Eq, Structural)]
pub enum FieldKind {
    Count,
    Measure,
}

/// The display label of `f`.
pub open spec fn spec_field_label(f: ParamField) -> Seq<char> {
    match f {
        ParamField::MeshCount => "メッシュ数(-)"@,
        ParamField::TimeStep => "時間刻み(s)"@,
        ParamField::CalculationStep => "計算ステップ数(-)"@,
        ParamField::PipeLength => "パイプ長さ(m)"@,
        ParamField::PipeOutdir => "パイプ外径(m)"@,
        ParamField::PipeIndir => "パイプ内径(m)"@,
        ParamField::PcmInitThickness => "PCM初期厚み(m)"@,
        ParamField::WaterInitTemp => "水初期温度(℃)"@,
        ParamField::PcmTemp => "PCM温度(℃)"@,
        ParamField::WaterDens => "水密度(kg/m3)"@,
        ParamField::WaterCond => "水熱伝導率(W/mK)"@,
        ParamField::WaterSpec => "水比熱(J/kgK)"@,
        ParamField::WaterVisc => "水粘性(Pa・s)"@,
        ParamField::CopperCond => "銅熱伝導率(W/mK)"@,
        ParamField::PcmLatent => "PCM潜熱(J/kg)"@,
        ParamField::PcmDens => "PCM密度(kg/m3)"@,
        ParamField::Nusscelt => "ヌセルト数(-)"@,
        ParamField::PcmCond => "PCM熱伝導率(W/mK)"@,
        ParamField::Gravity => "重力加速度(m/s2)"@,
        ParamField::PressureLoss => "圧力損失(MPa)"@,
        ParamField::PipeCount => "パイプ本数(-)"@,
    }
}

/// The semantic type of `f`.
pub open spec fn spec_field_kind(f: ParamField) -> FieldKind {
    match f {
        ParamField::MeshCount => FieldKind::Count,
        ParamField::CalculationStep => FieldKind::Count,
        ParamField::PipeCount => FieldKind::Count,
        _ => FieldKind::Measure,
    }
}

/// Display label of one configuration field, for presentation surfaces.
pub fn field_label(f: ParamField) -> (r: &'static str)
    ensures
        r@ == spec_field_label(f),
{
    match f {
        ParamField::MeshCount => "メッシュ数(-)",
        ParamField::TimeStep => "時間刻み(s)",
        ParamField::CalculationStep => "計算ステップ数(-)",
        ParamField::PipeLength => "パイプ長さ(m)",
        ParamField::PipeOutdir => "パイプ外径(m)",
        ParamField::PipeIndir => "パイプ内径(m)",
        ParamField::PcmInitThickness => "PCM初期厚み(m)",
        ParamField::WaterInitTemp => "水初期温度(℃)",
        ParamField::PcmTemp => "PCM温度(℃)",
        ParamField::WaterDens => "水密度(kg/m3)",
        ParamField::WaterCond => "水熱伝導率(W/mK)",
        ParamField::WaterSpec => "水比熱(J/kgK)",
        ParamField::WaterVisc => "水粘性(Pa・s)",
        ParamField::CopperCond => "銅熱伝導率(W/mK)",
        ParamField::PcmLatent => "PCM潜熱(J/kg)",
        ParamField::PcmDens => "PCM密度(kg/m3)",
        ParamField::Nusscelt => "ヌセルト数(-)",
        ParamField::PcmCond => "PCM熱伝導率(W/mK)",
        ParamField::Gravity => "重力加速度(m/s2)",
        ParamField::PressureLoss => "圧力損失(MPa)",
        ParamField::PipeCount => "パイプ本数(-)",
    }
}

/// Semantic type of one configuration field, for presentation surfaces.
pub fn field_kind(f: ParamField) -> (r: FieldKind)
    ensures
        r == spec_field_kind(f),
{
    match f {
        ParamField::MeshCount => FieldKind::Count,
        ParamField::CalculationStep => FieldKind::Count,
        ParamField::PipeCount => FieldKind::Count,
        _ => FieldKind::Measure,
    }
}

/// A configuration rejected before simulating, and why.
#[derive(Clone, Copy, Debug, PartialEq, Eq, Structural)]
pub enum ConfigError {
    /// The mesh count is zero.
    ZeroMeshCount,
    /// The named physical parameter is not a positive finite number.
    NonPositiveParameter(ParamField),
    /// The pipe counts of all types together exceed the machine word.
    PipeCountOverflow,
    /// The pipe counts of all types together are zero.
    ZeroTotalPipeCount,
}

/// Total number of physical pipes over all pipe types.
pub open spec fn spec_total_pipe_count(pps: Seq<PipeTypeParam>) -> int
    decreases pps.len(),
{
    if pps.len() == 0 {
        0
    } else {
        spec_total_pipe_count(pps.drop_last()) + pps.last().pipe_count
    }
}

/// The total pipe count is never negative.
pub proof fn lemma_total_pipe_count_nonneg(pps: Seq<PipeTypeParam>)
    ensures
        spec_total_pipe_count(pps) >= 0,
    decreases pps.len(),
{
    if pps.len() > 0 {
        lemma_total_pipe_count_nonneg(pps.drop_last());
    }
}

/// Extending a prefix by one element adds that element's pipe count.
pub proof fn lemma_total_pipe_count_take_step(pps: Seq<PipeTypeParam>, i: int)
    requires
        0 <= i < pps.len(),
    ensures
        spec_total_pipe_count(pps.take(i + 1))
            == spec_total_pipe_count(pps.take(i)) + pps[i].pipe_count,
{
    assert(pps.take(i + 1).drop_last() =~= pps.take(i));
    assert(pps.take(i + 1).last() == pps[i]);
}

/// A prefix never holds more pipes than the whole sequence.
pub proof fn lemma_total_pipe_count_take_le(pps: Seq<PipeTypeParam>, i: int)
    requires
        0 <= i <= pps.len(),
    ensures
        spec_total_pipe_count(pps.take(i)) <= spec_total_pipe_count(pps),
    decreases pps.len() - i,
{
    if i == pps.len() {
        assert(pps.take(i) =~= pps);
    } else {
        lemma_total_pipe_count_take_step(pps, i);
        lemma_total_pipe_count_take_le(pps, i + 1);
    }
}

/// Sums the pipe counts of all types; `None` when the sum does not fit in a
/// machine word.
pub fn total_pipe_count(pps: &Vec<PipeTypeParam>) -> (r: Option<usize>)
    ensures
        match r {
            Some(t) => t == spec_total_pipe_count(pps@),
            None => spec_total_pipe_count(pps@) > usize::MAX,
        },
{
    let mut total: usize = 0;
    let mut i: usize = 0;
    proof {
        assert(pps@.take(0) =~= Seq::<PipeTypeParam>::empty());
    }
    while i < pps.len()
        invariant
            0 <= i <= pps@.len(),
            total == spec_total_pipe_count(pps@.take(i as int)),
        decreases pps@.len() - i,
    {
        let c = pps[i].pipe_count;
        proof {
            lemma_total_pipe_count_take_step(pps@, i as int);
        }
        if c > usize::MAX - total {
            proof {
                lemma_total_pipe_count_take_le(pps@, i as int + 1);
            }
            return None;
        }
        total = total + c;
        i = i + 1;
    }
    proof {
        assert(pps@.take(pps@.len() as int) =~= pps@);
    }
    Some(total)
}

/// The verdict of the pre-flight validation: the first configuration error in
/// a fixed order, or `Ok` when the run may be simulated.
pub open spec fn spec_validate(gp: GeneralParam, cp: CalcParam, pps: Seq<PipeTypeParam>) -> Result<
    (),
    ConfigError,
> {
    if cp.mesh_count == 0 {
        Err(ConfigError::ZeroMeshCount)
    } else if !spec_is_positive_finite(cp.pipe_length) {
        Err(ConfigError::NonPositiveParameter(ParamField::PipeLength))
    } else if !spec_is_positive_finite(cp.pipe_outdir) {
        Err(ConfigError::NonPositiveParameter(ParamField::PipeOutdir))
    } else if !spec_is_positive_finite(cp.pipe_indir) {
        Err(ConfigError::NonPositiveParameter(ParamField::PipeIndir))
    } else if !spec_is_positive_finite(gp.water_visc) {
        Err(ConfigError::NonPositiveParameter(ParamField::WaterVisc))
    } else if !spec_is_positive_finite(gp.water_dens) {
        Err(ConfigError::NonPositiveParameter(ParamField::WaterDens))
    } else if spec_total_pipe_count(pps) > usize::MAX {
        Err(ConfigError::PipeCountOverflow)
    } else if spec_total_pipe_count(pps) == 0 {
        Err(ConfigError::ZeroTotalPipeCount)
    } else {
        Ok(())
    }
}

/// Rejects a configuration the simulation could only answer with non-finite
/// numbers or a panic: a zero mesh count, a non-positive pipe length,
/// diameter, water viscosity or water density, and a zero (or overflowing)
/// total pipe count. The numeric behaviour of the engine itself is not
/// altered: `simulate` trusts its inputs exactly as specified.
pub fn validate(gp: &GeneralParam, cp: &CalcParam, pps: &Vec<PipeTypeParam>) -> (r: Result<
    (),
    ConfigError,
>)
    ensures
        r == spec_validate(*gp, *cp, pps@),
{
    if cp.mesh_count == 0 {
        Err(ConfigError::ZeroMeshCount)
    } else if !is_positive_finite(cp.pipe_length) {
        Err(ConfigError::NonPositiveParameter(ParamField::PipeLength))
    } else if !is_positive_finite(cp.pipe_outdir) {
        Err(ConfigError::NonPositiveParameter(ParamField::PipeOutdir))
    } else if !is_positive_finite(cp.pipe_indir) {
        Err(ConfigError::NonPositiveParameter(ParamField::PipeIndir))
    } else if !is_positive_finite(gp.water_visc) {
        Err(ConfigError::NonPositiveParameter(ParamField::WaterVisc))
    } else if !is_positive_finite(gp.water_dens) {
        Err(ConfigError::NonPositiveParameter(ParamField::WaterDens))
    } else {
        match total_pipe_count(pps) {
            None => Err(ConfigError::PipeCountOverflow),
            Some(0) => Err(ConfigError::ZeroTotalPipeCount),
            Some(_) => Ok(()),
        }
    }
}

} // verus!
