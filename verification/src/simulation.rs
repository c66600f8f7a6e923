//! The simulation engine: flow initialization, the explicit finite-difference
//! stepper, and the per-step result bookkeeping.
//!
//! Temperatures, thicknesses, rates and every other physical quantity are
//! IEEE-754 binary64 bit patterns (`u64`). The spec functions below mirror the
//! engine's arithmetic, expression by expression, over the uninterpreted
//! binary64 primitives of `bits`, so every contract pins its result exactly:
//! two runs on the same inputs are bit-identical by construction.
//!
//! One run advances `calculation_step - 1` times; each step applies, per pipe,
//! a radial heat/PCM-front update to every mesh cell (Phase A), then an axial
//! upwind advection over the whole pipe (Phase B), and records a snapshot.

use vstd::prelude::*;
use vstd::pervasive::VecAdditionalExecFns;
use crate::bits::{add64, sub64, mul64, div64, ln64, of_uint64};
use crate::bits::{add_bits, sub_bits, mul_bits, div_bits, ln_bits, uint_to_bits};
use crate::bits::{F64_ZERO, F64_ONE, F64_TWO, F64_FOUR, F64_SIX, F64_NINE, F64_TEN,
    F64_SIXTY_FOUR, F64_MEGA};
use crate::params::{GeneralParam, CalcParam, PipeTypeParam, ConfigError, spec_total_pipe_count,
    total_pipe_count, lemma_total_pipe_count_nonneg, spec_validate, validate};

verus! {

/// One axial discretization cell: local water temperature and local PCM shell
/// thickness, both as binary64 bit patterns.
#[derive(Clone, Copy, Debug, PartialEq, Eq, Structural)]
pub struct Mesh {
    pub temp: u64,
    pub pcm_thickness: u64,
}

/// One simulated pipe type: its mesh cells ordered inlet to outlet, and its
/// derived flow and composition rates.
pub struct Pipe {
    pub meshes: Vec<Mesh>,
    pub flow_rate: u64,
    pub composition_rate: u64,
}

/// The full output of one run: per-pipe-type diagnostics and outlet series,
/// plus the flow-weighted mean outlet series.
pub struct CalcResult {
    pub pipe_courants: Vec<u64>,
    pub pipe_flow_rates: Vec<u64>,
    pub pipe_end_temperatures: Vec<Vec<u64>>,
    pub average_end_temperatures: Vec<u64>,
}

impl Default for CalcResult {
    /// A result with no pipes and no recorded steps.
    fn default() -> (r: CalcResult)
        ensures
            r.pipe_courants@.len() == 0,
            r.pipe_flow_rates@.len() == 0,
            r.pipe_end_temperatures@.len() == 0,
            r.average_end_temperatures@.len() == 0,
    {
        CalcResult {
            pipe_courants: Vec::new(),
            pipe_flow_rates: Vec::new(),
            pipe_end_temperatures: Vec::new(),
            average_end_temperatures: Vec::new(),
        }
    }
}

// ---------------------------------------------------------------------------
// The reference model: what one run computes, cell by cell and step by step.
// ---------------------------------------------------------------------------

/// Axial cell width: `pipe_length / mesh_count`.
pub open spec fn spec_cell_width(cp: CalcParam) -> u64 {
    div64(cp.pipe_length, of_uint64(cp.mesh_count as u64))
}

/// Volumetric flow rate of one pipe of this type, from its pressure loss
/// (MPa, converted to Pa by the factor 10^6):
/// `2 * d_in^2 * dp * 10^6 / (64 * L * mu * rho_water)`.
pub open spec fn spec_flow_rate(gp: GeneralParam, cp: CalcParam, pp: PipeTypeParam) -> u64 {
    div64(
        mul64(mul64(mul64(F64_TWO, mul64(cp.pipe_indir, cp.pipe_indir)), pp.pressure_loss), F64_MEGA),
        mul64(mul64(mul64(F64_SIXTY_FOUR, cp.pipe_length), gp.water_visc), gp.water_dens),
    )
}

/// Composition share of this type: its pipe count over the total pipe count.
pub open spec fn spec_composition_rate(pp: PipeTypeParam, total: int) -> u64 {
    div64(of_uint64(pp.pipe_count as u64), of_uint64(total as u64))
}

/// Courant number of one pipe type:
/// `flow_rate * time_step / (pipe_length / mesh_count)`.
pub open spec fn spec_courant(gp: GeneralParam, cp: CalcParam, pp: PipeTypeParam) -> u64 {
    div64(mul64(spec_flow_rate(gp, cp, pp), cp.time_step), spec_cell_width(cp))
}

/// Combined radial heat-transfer coefficient over a PCM shell of thickness
/// `th`: the reciprocal of three serial resistances — internal convection,
/// conduction through the pipe wall, conduction through the PCM shell.
pub open spec fn spec_heat_coeff(gp: GeneralParam, cp: CalcParam, th: u64) -> u64 {
    div64(
        F64_ONE,
        add64(
            add64(
                div64(F64_ONE, mul64(gp.nusscelt, gp.water_cond)),
                div64(ln64(div64(cp.pipe_outdir, cp.pipe_indir)), mul64(F64_TWO, gp.copper_cond)),
            ),
            div64(
                ln64(div64(add64(cp.pipe_outdir, mul64(F64_TWO, th)), cp.pipe_outdir)),
                mul64(F64_TWO, gp.pcm_cond),
            ),
        ),
    )
}

/// Temperature increment of one cell over one time step:
/// `4 * k * (T_pcm - T_cell) * dt / (d_in * c_p * rho_water)`.
pub open spec fn spec_delta_temp(gp: GeneralParam, cp: CalcParam, k: u64, temp: u64) -> u64 {
    div64(
        mul64(mul64(mul64(F64_FOUR, k), sub64(cp.pcm_temp, temp)), cp.time_step),
        mul64(mul64(cp.pipe_indir, gp.water_spec), gp.water_dens),
    )
}

/// PCM-thickness increment from the latent-heat balance over the shell:
/// `d_in^2 * c_p * rho_water * dT / (4 * (d_out + 2 * th) * rho_pcm * L_latent)`.
pub open spec fn spec_delta_thickness(gp: GeneralParam, cp: CalcParam, th: u64, dt: u64) -> u64 {
    div64(
        mul64(mul64(mul64(mul64(cp.pipe_indir, cp.pipe_indir), gp.water_spec), gp.water_dens), dt),
        mul64(
            mul64(mul64(F64_FOUR, add64(cp.pipe_outdir, mul64(F64_TWO, th))), gp.pcm_dens),
            gp.pcm_latent,
        ),
    )
}

/// Phase A on one cell: both increments are computed from the cell's prior
/// state, then applied together.
pub open spec fn spec_radial_mesh(gp: GeneralParam, cp: CalcParam, m: Mesh) -> Mesh {
    let k = spec_heat_coeff(gp, cp, m.pcm_thickness);
    let dt = spec_delta_temp(gp, cp, k, m.temp);
    let dth = spec_delta_thickness(gp, cp, m.pcm_thickness, dt);
    Mesh { temp: add64(m.temp, dt), pcm_thickness: add64(m.pcm_thickness, dth) }
}

/// Phase A on a whole pipe: each cell independently.
pub open spec fn spec_radial_sweep(gp: GeneralParam, cp: CalcParam, ms: Seq<Mesh>) -> Seq<Mesh> {
    Seq::new(ms.len(), |i: int| spec_radial_mesh(gp, cp, ms[i]))
}

/// The temperatures of a mesh sequence, in order.
pub open spec fn spec_temps_of(ms: Seq<Mesh>) -> Seq<u64> {
    Seq::new(ms.len(), |i: int| ms[i].temp)
}

/// Phase B on one cell: the 5-point explicit upwind difference
/// `T[i] - flow * (2*T[i-2] - 10*T[i-1] + 9*T[i] - 2*T[i+1] + T[i+2]) * dt / (6 * dx)`.
/// Indices below zero take the constant inlet value `water_init_temp`;
/// indices at or past the end take the last interior cell's value, the `+2`
/// neighbour past the end reusing the `+1` substitute.
pub open spec fn spec_advected_temp(cp: CalcParam, flow: u64, temps: Seq<u64>, i: int) -> u64 {
    let n = temps.len() as int;
    let t_p2 = if i < 2 { cp.water_init_temp } else { temps[i - 2] };
    let t_p1 = if i < 1 { cp.water_init_temp } else { temps[i - 1] };
    let t_c = temps[i];
    let t_n1 = if i + 1 >= n { temps[i] } else { temps[i + 1] };
    let t_n2 = if i + 2 >= n { t_n1 } else { temps[i + 2] };
    let stencil = add64(
        sub64(
            add64(sub64(mul64(F64_TWO, t_p2), mul64(F64_TEN, t_p1)), mul64(F64_NINE, t_c)),
            mul64(F64_TWO, t_n1),
        ),
        t_n2,
    );
    sub64(t_c, div64(mul64(mul64(flow, stencil), cp.time_step), mul64(F64_SIX, spec_cell_width(cp))))
}

/// Phase B on a whole pipe: every next temperature is computed from the
/// Phase-A state before any cell is overwritten; thicknesses are untouched.
pub open spec fn spec_axial_sweep(cp: CalcParam, flow: u64, ms: Seq<Mesh>) -> Seq<Mesh> {
    Seq::new(
        ms.len(),
        |i: int| Mesh {
            temp: spec_advected_temp(cp, flow, spec_temps_of(ms), i),
            pcm_thickness: ms[i].pcm_thickness,
        },
    )
}

/// One full step of one pipe: Phase A, then Phase B on the Phase-A state.
pub open spec fn spec_step_meshes(gp: GeneralParam, cp: CalcParam, flow: u64, ms: Seq<Mesh>) -> Seq<
    Mesh,
> {
    spec_axial_sweep(cp, flow, spec_radial_sweep(gp, cp, ms))
}

/// The uniform pre-run condition: `mesh_count` cells at the initial water
/// temperature and initial PCM thickness.
pub open spec fn spec_initial_meshes(cp: CalcParam) -> Seq<Mesh> {
    Seq::new(
        cp.mesh_count as nat,
        |i: int| Mesh { temp: cp.water_init_temp, pcm_thickness: cp.pcm_init_thickness },
    )
}

/// The mesh state of one pipe of type `pp` after `t` whole steps.
pub open spec fn spec_meshes_after(gp: GeneralParam, cp: CalcParam, pp: PipeTypeParam, t: nat) -> Seq<
    Mesh,
>
    decreases t,
{
    if t == 0 {
        spec_initial_meshes(cp)
    } else {
        spec_step_meshes(gp, cp, spec_flow_rate(gp, cp, pp), spec_meshes_after(gp, cp, pp, (t - 1) as nat))
    }
}

/// Stepping never changes how many cells a pipe has.
pub proof fn lemma_meshes_after_len(gp: GeneralParam, cp: CalcParam, pp: PipeTypeParam, t: nat)
    ensures
        spec_meshes_after(gp, cp, pp, t).len() == cp.mesh_count,
    decreases t,
{
    if t > 0 {
        lemma_meshes_after_len(gp, cp, pp, (t - 1) as nat);
    }
}

// ---------------------------------------------------------------------------
// The flow initializer.
// ---------------------------------------------------------------------------

/// What `init_pipes` guarantees of the pipe at position `i`.
pub open spec fn spec_is_initial_pipe(
    gp: GeneralParam,
    cp: CalcParam,
    pps: Seq<PipeTypeParam>,
    p: Pipe,
    i: int,
) -> bool {
    &&& p.flow_rate == spec_flow_rate(gp, cp, pps[i])
    &&& p.composition_rate == spec_composition_rate(pps[i], spec_total_pipe_count(pps))
    &&& p.meshes@ == spec_initial_meshes(cp)
}

/// Derives one pipe per input pipe type, in input order: `mesh_count` cells
/// at the uniform initial condition, the closed-form flow rate, and the
/// composition share of the type's pipe count in the total.
#[verifier::loop_isolation(false)]
pub fn init_pipes(gp: &GeneralParam, cp: &CalcParam, pps: &Vec<PipeTypeParam>) -> (pipes: Vec<Pipe>)
    requires
        spec_total_pipe_count(pps@) <= usize::MAX,
    ensures
        pipes@.len() == pps@.len(),
        forall|i: int|
            0 <= i < pps@.len() ==> spec_is_initial_pipe(*gp, *cp, pps@, #[trigger] pipes@[i], i),
{
    let total: usize = match total_pipe_count(pps) {
        Some(t) => t,
        None => {
            proof {
                lemma_total_pipe_count_nonneg(pps@);
            }
            0
        },
    };
    let total_bits = uint_to_bits(total as u64);
    let mut pipes: Vec<Pipe> = Vec::new();
    let mut idx: usize = 0;
    while idx < pps.len()
        invariant
            0 <= idx <= pps@.len(),
            pipes@.len() == idx,
            forall|i: int|
                0 <= i < idx ==> spec_is_initial_pipe(*gp, *cp, pps@, #[trigger] pipes@[i], i),
        decreases pps@.len() - idx,
    {
        let mut meshes: Vec<Mesh> = Vec::new();
        let mut j: usize = 0;
        while j < cp.mesh_count
            invariant
                0 <= j <= cp.mesh_count,
                meshes@.len() == j,
                forall|k: int|
                    0 <= k < j ==> #[trigger] meshes@[k] == (Mesh {
                        temp: cp.water_init_temp,
                        pcm_thickness: cp.pcm_init_thickness,
                    }),
            decreases cp.mesh_count - j,
        {
            meshes.push(Mesh { temp: cp.water_init_temp, pcm_thickness: cp.pcm_init_thickness });
            j = j + 1;
        }
        proof {
            assert(meshes@ =~= spec_initial_meshes(*cp));
        }
        let flow_rate = div_bits(
            mul_bits(
                mul_bits(mul_bits(F64_TWO, mul_bits(cp.pipe_indir, cp.pipe_indir)), pps[idx].pressure_loss),
                F64_MEGA,
            ),
            mul_bits(mul_bits(mul_bits(F64_SIXTY_FOUR, cp.pipe_length), gp.water_visc), gp.water_dens),
        );
        let composition_rate = div_bits(uint_to_bits(pps[idx].pipe_count as u64), total_bits);
        pipes.push(Pipe { meshes, flow_rate, composition_rate });
        idx = idx + 1;
    }
    pipes
}

// ---------------------------------------------------------------------------
// The thermal stepper.
// ---------------------------------------------------------------------------

/// Phase A in place: the radial heat/PCM-front update on every cell, each
/// from its own prior state only.
#[verifier::loop_isolation(false)]
fn radial_sweep(gp: &GeneralParam, cp: &CalcParam, meshes: &mut Vec<Mesh>)
    ensures
        final(meshes)@ == spec_radial_sweep(*gp, *cp, old(meshes)@),
{
    let ghost ms0 = meshes@;
    let n = meshes.len();
    let mut i: usize = 0;
    while i < n
        invariant
            0 <= i <= n,
            meshes@.len() == n == ms0.len(),
            forall|k: int| 0 <= k < i ==> #[trigger] meshes@[k] == spec_radial_mesh(*gp, *cp, ms0[k]),
            forall|k: int| i <= k < n ==> #[trigger] meshes@[k] == ms0[k],
        decreases n - i,
    {
        let m = meshes[i];
        let k = div_bits(
            F64_ONE,
            add_bits(
                add_bits(
                    div_bits(F64_ONE, mul_bits(gp.nusscelt, gp.water_cond)),
                    div_bits(
                        ln_bits(div_bits(cp.pipe_outdir, cp.pipe_indir)),
                        mul_bits(F64_TWO, gp.copper_cond),
                    ),
                ),
                div_bits(
                    ln_bits(
                        div_bits(
                            add_bits(cp.pipe_outdir, mul_bits(F64_TWO, m.pcm_thickness)),
                            cp.pipe_outdir,
                        ),
                    ),
                    mul_bits(F64_TWO, gp.pcm_cond),
                ),
            ),
        );
        let delta_temp = div_bits(
            mul_bits(mul_bits(mul_bits(F64_FOUR, k), sub_bits(cp.pcm_temp, m.temp)), cp.time_step),
            mul_bits(mul_bits(cp.pipe_indir, gp.water_spec), gp.water_dens),
        );
        let delta_pcm_thickness = div_bits(
            mul_bits(
                mul_bits(mul_bits(mul_bits(cp.pipe_indir, cp.pipe_indir), gp.water_spec), gp.water_dens),
                delta_temp,
            ),
            mul_bits(
                mul_bits(
                    mul_bits(F64_FOUR, add_bits(cp.pipe_outdir, mul_bits(F64_TWO, m.pcm_thickness))),
                    gp.pcm_dens,
                ),
                gp.pcm_latent,
            ),
        );
        meshes.set(
            i,
            Mesh {
                temp: add_bits(m.temp, delta_temp),
                pcm_thickness: add_bits(m.pcm_thickness, delta_pcm_thickness),
            },
        );
        i = i + 1;
    }
    proof {
        assert(meshes@ =~= spec_radial_sweep(*gp, *cp, ms0));
    }
}

/// Phase B in place: every next temperature is computed into a separate
/// buffer from the current state before any cell is overwritten, so no cell
/// reads a partially updated neighbour.
#[verifier::loop_isolation(false)]
fn axial_sweep(cp: &CalcParam, flow_rate: u64, meshes: &mut Vec<Mesh>)
    requires
        old(meshes)@.len() == cp.mesh_count,
        cp.mesh_count >= 1,
    ensures
        final(meshes)@ == spec_axial_sweep(*cp, flow_rate, old(meshes)@),
{
    let ghost ms0 = meshes@;
    let x = div_bits(cp.pipe_length, uint_to_bits(cp.mesh_count as u64));
    let mut next_temps: Vec<u64> = Vec::new();
    let mut i: usize = 0;
    while i < cp.mesh_count
        invariant
            0 <= i <= cp.mesh_count,
            meshes@ == ms0,
            next_temps@.len() == i,
            forall|k: int|
                0 <= k < i ==> #[trigger] next_temps@[k] == spec_advected_temp(
                    *cp,
                    flow_rate,
                    spec_temps_of(ms0),
                    k,
                ),
        decreases cp.mesh_count - i,
    {
        let t_p2 = if i < 2 {
            cp.water_init_temp
        } else {
            meshes[i - 2].temp
        };
        let t_p1 = if i < 1 {
            cp.water_init_temp
        } else {
            meshes[i - 1].temp
        };
        let t_c = meshes[i].temp;
        let t_n1 = if cp.mesh_count - i >= 2 {
            meshes[i + 1].temp
        } else {
            meshes[i].temp
        };
        let t_n2 = if cp.mesh_count - i >= 3 {
            meshes[i + 2].temp
        } else {
            t_n1
        };
        let stencil = add_bits(
            sub_bits(
                add_bits(
                    sub_bits(mul_bits(F64_TWO, t_p2), mul_bits(F64_TEN, t_p1)),
                    mul_bits(F64_NINE, t_c),
                ),
                mul_bits(F64_TWO, t_n1),
            ),
            t_n2,
        );
        let next = sub_bits(
            t_c,
            div_bits(mul_bits(mul_bits(flow_rate, stencil), cp.time_step), mul_bits(F64_SIX, x)),
        );
        next_temps.push(next);
        i = i + 1;
    }
    let mut i: usize = 0;
    while i < cp.mesh_count
        invariant
            0 <= i <= cp.mesh_count,
            meshes@.len() == cp.mesh_count,
            next_temps@.len() == cp.mesh_count,
            forall|k: int|
                0 <= k < cp.mesh_count ==> #[trigger] next_temps@[k] == spec_advected_temp(
                    *cp,
                    flow_rate,
                    spec_temps_of(ms0),
                    k,
                ),
            forall|k: int|
                0 <= k < i ==> #[trigger] meshes@[k] == (Mesh {
                    temp: next_temps@[k],
                    pcm_thickness: ms0[k].pcm_thickness,
                }),
            forall|k: int| i <= k < cp.mesh_count ==> #[trigger] meshes@[k] == ms0[k],
        decreases cp.mesh_count - i,
    {
        let th = meshes[i].pcm_thickness;
        meshes.set(i, Mesh { temp: next_temps[i], pcm_thickness: th });
        i = i + 1;
    }
    proof {
        assert(meshes@ =~= spec_axial_sweep(*cp, flow_rate, ms0));
    }
}

/// One full step of one pipe: Phase A, then Phase B on the Phase-A-updated
/// temperatures. The flow and composition rates never change.
pub fn step_pipe(gp: &GeneralParam, cp: &CalcParam, pipe: &mut Pipe)
    requires
        old(pipe).meshes@.len() == cp.mesh_count,
        cp.mesh_count >= 1,
    ensures
        final(pipe).meshes@ == spec_step_meshes(*gp, *cp, old(pipe).flow_rate, old(pipe).meshes@),
        final(pipe).meshes@.len() == cp.mesh_count,
        final(pipe).flow_rate == old(pipe).flow_rate,
        final(pipe).composition_rate == old(pipe).composition_rate,
{
    radial_sweep(gp, cp, &mut pipe.meshes);
    axial_sweep(cp, pipe.flow_rate, &mut pipe.meshes);
}

// ---------------------------------------------------------------------------
// The result aggregator.
// ---------------------------------------------------------------------------

/// Left fold of `flow_rate * composition_rate * outlet_temp` over the first
/// `k` pipes, seeded with binary64 zero.
pub open spec fn spec_pipes_weighted_temp_sum(ps: Seq<Pipe>, k: int) -> u64
    decreases k,
{
    if k <= 0 {
        F64_ZERO
    } else {
        add64(
            spec_pipes_weighted_temp_sum(ps, k - 1),
            mul64(
                mul64(ps[k - 1].flow_rate, ps[k - 1].composition_rate),
                ps[k - 1].meshes@.last().temp,
            ),
        )
    }
}

/// Left fold of `flow_rate * composition_rate` over the first `k` pipes,
/// seeded with binary64 zero.
pub open spec fn spec_pipes_weighted_flow_sum(ps: Seq<Pipe>, k: int) -> u64
    decreases k,
{
    if k <= 0 {
        F64_ZERO
    } else {
        add64(
            spec_pipes_weighted_flow_sum(ps, k - 1),
            mul64(ps[k - 1].flow_rate, ps[k - 1].composition_rate),
        )
    }
}

/// The flow-and-composition-weighted mean outlet temperature over a set of
/// pipes: `sum(flow * composition * outlet) / sum(flow * composition)`.
#[verifier::loop_isolation(false)]
pub fn average_outlet_temperature(pipes: &Vec<Pipe>) -> (r: u64)
    requires
        forall|p: int| 0 <= p < pipes@.len() ==> (#[trigger] pipes@[p]).meshes@.len() >= 1,
    ensures
        r == div64(
            spec_pipes_weighted_temp_sum(pipes@, pipes@.len() as int),
            spec_pipes_weighted_flow_sum(pipes@, pipes@.len() as int),
        ),
{
    let mut num = F64_ZERO;
    let mut den = F64_ZERO;
    let mut j: usize = 0;
    while j < pipes.len()
        invariant
            0 <= j <= pipes@.len(),
            num == spec_pipes_weighted_temp_sum(pipes@, j as int),
            den == spec_pipes_weighted_flow_sum(pipes@, j as int),
        decreases pipes@.len() - j,
    {
        let weight = mul_bits(pipes[j].flow_rate, pipes[j].composition_rate);
        let outlet = pipes[j].meshes[pipes[j].meshes.len() - 1].temp;
        num = add_bits(num, mul_bits(weight, outlet));
        den = add_bits(den, weight);
        j = j + 1;
    }
    div_bits(num, den)
}

/// Weighted outlet-temperature sum over the first `k` pipe types after `t`
/// steps, stated over the inputs alone.
pub open spec fn spec_weighted_temp_sum(
    gp: GeneralParam,
    cp: CalcParam,
    pps: Seq<PipeTypeParam>,
    total: int,
    k: int,
    t: nat,
) -> u64
    decreases k,
{
    if k <= 0 {
        F64_ZERO
    } else {
        add64(
            spec_weighted_temp_sum(gp, cp, pps, total, k - 1, t),
            mul64(
                mul64(spec_flow_rate(gp, cp, pps[k - 1]), spec_composition_rate(pps[k - 1], total)),
                spec_meshes_after(gp, cp, pps[k - 1], t).last().temp,
            ),
        )
    }
}

/// Weighted flow sum over the first `k` pipe types, stated over the inputs
/// alone.
pub open spec fn spec_weighted_flow_sum(
    gp: GeneralParam,
    cp: CalcParam,
    pps: Seq<PipeTypeParam>,
    total: int,
    k: int,
) -> u64
    decreases k,
{
    if k <= 0 {
        F64_ZERO
    } else {
        add64(
            spec_weighted_flow_sum(gp, cp, pps, total, k - 1),
            mul64(spec_flow_rate(gp, cp, pps[k - 1]), spec_composition_rate(pps[k - 1], total)),
        )
    }
}

/// On pipes in the state of step `t`, the pipe-level weighted sums equal the
/// input-level ones.
pub proof fn lemma_weighted_sums_match(
    gp: GeneralParam,
    cp: CalcParam,
    pps: Seq<PipeTypeParam>,
    ps: Seq<Pipe>,
    total: int,
    t: nat,
    k: int,
)
    requires
        ps.len() == pps.len(),
        0 <= k <= pps.len(),
        total == spec_total_pipe_count(pps),
        forall|p: int|
            0 <= p < pps.len() ==> (#[trigger] ps[p]).flow_rate == spec_flow_rate(gp, cp, pps[p]),
        forall|p: int|
            0 <= p < pps.len() ==> (#[trigger] ps[p]).composition_rate == spec_composition_rate(
                pps[p],
                total,
            ),
        forall|p: int|
            0 <= p < pps.len() ==> (#[trigger] ps[p]).meshes@ == spec_meshes_after(gp, cp, pps[p], t),
    ensures
        spec_pipes_weighted_temp_sum(ps, k) == spec_weighted_temp_sum(gp, cp, pps, total, k, t),
        spec_pipes_weighted_flow_sum(ps, k) == spec_weighted_flow_sum(gp, cp, pps, total, k),
    decreases k,
{
    if k > 0 {
        lemma_weighted_sums_match(gp, cp, pps, ps, total, t, k - 1);
    }
}

/// The flow-weighted mean outlet temperature after `t` steps, stated over the
/// inputs alone.
pub open spec fn spec_average_outlet(gp: GeneralParam, cp: CalcParam, pps: Seq<PipeTypeParam>, t: nat) -> u64 {
    let total = spec_total_pipe_count(pps);
    div64(
        spec_weighted_temp_sum(gp, cp, pps, total, pps.len() as int, t),
        spec_weighted_flow_sum(gp, cp, pps, total, pps.len() as int),
    )
}

// ---------------------------------------------------------------------------
// The whole run.
// ---------------------------------------------------------------------------

/// How many entries every output series has: `calculation_step`, except that
/// a run of zero configured steps still records its initial condition.
pub open spec fn spec_series_len(cp: CalcParam) -> int {
    if cp.calculation_step >= 1 {
        cp.calculation_step as int
    } else {
        1
    }
}

/// The outlet-temperature series of one pipe type: the uniform initial
/// condition, then the last cell's temperature after each step.
pub open spec fn spec_outlet_series(gp: GeneralParam, cp: CalcParam, pp: PipeTypeParam) -> Seq<u64> {
    Seq::new(
        spec_series_len(cp) as nat,
        |s: int|
            if s == 0 {
                cp.water_init_temp
            } else {
                spec_meshes_after(gp, cp, pp, s as nat).last().temp
            },
    )
}

/// The flow-weighted mean outlet-temperature series of the whole run.
pub open spec fn spec_average_series(gp: GeneralParam, cp: CalcParam, pps: Seq<PipeTypeParam>) -> Seq<
    u64,
> {
    Seq::new(
        spec_series_len(cp) as nat,
        |s: int|
            if s == 0 {
                cp.water_init_temp
            } else {
                spec_average_outlet(gp, cp, pps, s as nat)
            },
    )
}

/// Everything `simulate` promises of its result: one flow rate, one Courant
/// number and one outlet series per pipe type, in input order, each series
/// and the aggregate series pinned entry by entry.
pub open spec fn spec_simulate_post(
    gp: GeneralParam,
    cp: CalcParam,
    pps: Seq<PipeTypeParam>,
    result: CalcResult,
) -> bool {
    &&& result.pipe_flow_rates@.len() == pps.len()
    &&& result.pipe_courants@.len() == pps.len()
    &&& result.pipe_end_temperatures@.len() == pps.len()
    &&& forall|i: int|
        0 <= i < pps.len() ==> #[trigger] result.pipe_flow_rates@[i] == spec_flow_rate(gp, cp, pps[i])
    &&& forall|i: int|
        0 <= i < pps.len() ==> #[trigger] result.pipe_courants@[i] == spec_courant(gp, cp, pps[i])
    &&& forall|i: int|
        0 <= i < pps.len() ==> (#[trigger] result.pipe_end_temperatures@[i])@ == spec_outlet_series(
            gp,
            cp,
            pps[i],
        )
    &&& result.average_end_temperatures@ == spec_average_series(gp, cp, pps)
}

/// Runs the whole simulation: derives the per-type flow data, advances the
/// mesh state `calculation_step - 1` times, and records after every step each
/// type's outlet temperature and the flow-weighted mean outlet temperature.
///
/// The engine trusts its inputs: it performs no validation and no recovery
/// (see `validate` and `run`). Non-finite parameters propagate through the
/// arithmetic into the output series.
#[verifier::loop_isolation(false)]
pub fn simulate(
    general_param: GeneralParam,
    calc_param: CalcParam,
    pipe_params: Vec<PipeTypeParam>,
) -> (result: CalcResult)
    requires
        calc_param.mesh_count >= 1,
        spec_total_pipe_count(pipe_params@) <= usize::MAX,
    ensures
        spec_simulate_post(general_param, calc_param, pipe_params@, result),
{
    let ghost gp = general_param;
    let ghost cp = calc_param;
    let ghost pps = pipe_params@;
    let ghost total = spec_total_pipe_count(pipe_params@);
    let x = div_bits(calc_param.pipe_length, uint_to_bits(calc_param.mesh_count as u64));
    let mut pipes = init_pipes(&general_param, &calc_param, &pipe_params);
    let np = pipes.len();
    let mut pipe_flow_rates: Vec<u64> = Vec::new();
    let mut pipe_courants: Vec<u64> = Vec::new();
    let mut pipe_end_temperatures: Vec<Vec<u64>> = Vec::new();
    let mut i: usize = 0;
    while i < np
        invariant
            0 <= i <= np,
            pipe_flow_rates@.len() == i,
            pipe_courants@.len() == i,
            pipe_end_temperatures@.len() == i,
            forall|p: int|
                0 <= p < i ==> #[trigger] pipe_flow_rates@[p] == spec_flow_rate(gp, cp, pps[p]),
            forall|p: int|
                0 <= p < i ==> #[trigger] pipe_courants@[p] == spec_courant(gp, cp, pps[p]),
            forall|p: int|
                0 <= p < i ==> (#[trigger] pipe_end_temperatures@[p])@.len() == 1,
            forall|p: int|
                0 <= p < i ==> (#[trigger] pipe_end_temperatures@[p])@[0] == cp.water_init_temp,
        decreases np - i,
    {
        pipe_flow_rates.push(pipes[i].flow_rate);
        pipe_courants.push(div_bits(mul_bits(pipes[i].flow_rate, calc_param.time_step), x));
        let mut series: Vec<u64> = Vec::new();
        series.push(calc_param.water_init_temp);
        pipe_end_temperatures.push(series);
        i = i + 1;
    }
    let mut average_end_temperatures: Vec<u64> = Vec::new();
    average_end_temperatures.push(calc_param.water_init_temp);
    let mut t: usize = 1;
    while t < calc_param.calculation_step
        invariant
            1 <= t <= spec_series_len(cp),
            pipes@.len() == np,
            forall|p: int|
                0 <= p < np ==> (#[trigger] pipes@[p]).flow_rate == spec_flow_rate(gp, cp, pps[p]),
            forall|p: int|
                0 <= p < np ==> (#[trigger] pipes@[p]).composition_rate == spec_composition_rate(
                    pps[p],
                    total,
                ),
            forall|p: int|
                0 <= p < np ==> (#[trigger] pipes@[p]).meshes@ == spec_meshes_after(
                    gp,
                    cp,
                    pps[p],
                    (t - 1) as nat,
                ),
            pipe_end_temperatures@.len() == np,
            forall|p: int| 0 <= p < np ==> (#[trigger] pipe_end_temperatures@[p])@.len() == t,
            forall|p: int, s: int|
                0 <= p < np && 0 <= s < t ==> #[trigger] pipe_end_temperatures@[p]@[s]
                    == spec_outlet_series(gp, cp, pps[p])[s],
            average_end_temperatures@.len() == t,
            forall|s: int|
                0 <= s < t ==> #[trigger] average_end_temperatures@[s] == spec_average_series(
                    gp,
                    cp,
                    pps,
                )[s],
        decreases calc_param.calculation_step - t,
    {
        let mut j: usize = 0;
        while j < np
            invariant
                0 <= j <= np,
                pipes@.len() == np,
                forall|p: int|
                    0 <= p < np ==> (#[trigger] pipes@[p]).flow_rate == spec_flow_rate(
                        gp,
                        cp,
                        pps[p],
                    ),
                forall|p: int|
                    0 <= p < np ==> (#[trigger] pipes@[p]).composition_rate
                        == spec_composition_rate(pps[p], total),
                forall|p: int|
                    0 <= p < j ==> (#[trigger] pipes@[p]).meshes@ == spec_meshes_after(
                        gp,
                        cp,
                        pps[p],
                        t as nat,
                    ),
                forall|p: int|
                    j <= p < np ==> (#[trigger] pipes@[p]).meshes@ == spec_meshes_after(
                        gp,
                        cp,
                        pps[p],
                        (t - 1) as nat,
                    ),
            decreases np - j,
        {
            proof {
                lemma_meshes_after_len(gp, cp, pps[j as int], (t - 1) as nat);
            }
            step_pipe(&general_param, &calc_param, &mut pipes[j]);
            j = j + 1;
        }
        let mut j: usize = 0;
        while j < np
            invariant
                0 <= j <= np,
                pipe_end_temperatures@.len() == np,
                forall|p: int|
                    0 <= p < j ==> (#[trigger] pipe_end_temperatures@[p])@.len() == t + 1,
                forall|p: int|
                    j <= p < np ==> (#[trigger] pipe_end_temperatures@[p])@.len() == t,
                forall|p: int, s: int|
                    0 <= p < np && 0 <= s < t ==> #[trigger] pipe_end_temperatures@[p]@[s]
                        == spec_outlet_series(gp, cp, pps[p])[s],
                forall|p: int|
                    0 <= p < j ==> #[trigger] pipe_end_temperatures@[p]@[t as int]
                        == spec_outlet_series(gp, cp, pps[p])[t as int],
            decreases np - j,
        {
            proof {
                lemma_meshes_after_len(gp, cp, pps[j as int], t as nat);
            }
            let outlet = pipes[j].meshes[calc_param.mesh_count - 1].temp;
            pipe_end_temperatures[j].push(outlet);
            j = j + 1;
        }
        proof {
            assert forall|p: int| 0 <= p < np implies (#[trigger] pipes@[p]).meshes@.len() >= 1 by {
                lemma_meshes_after_len(gp, cp, pps[p], t as nat);
            }
        }
        let avg = average_outlet_temperature(&pipes);
        proof {
            lemma_weighted_sums_match(gp, cp, pps, pipes@, total, t as nat, np as int);
        }
        average_end_temperatures.push(avg);
        t = t + 1;
    }
    let result = CalcResult {
        pipe_courants,
        pipe_flow_rates,
        pipe_end_temperatures,
        average_end_temperatures,
    };
    proof {
        assert forall|i: int|
            0 <= i < pps.len() implies (#[trigger] result.pipe_end_temperatures@[i])@
            == spec_outlet_series(gp, cp, pps[i]) by {
            assert(result.pipe_end_temperatures@[i]@ =~= spec_outlet_series(gp, cp, pps[i]));
        }
        assert(result.average_end_temperatures@ =~= spec_average_series(gp, cp, pps));
    }
    result
}

/// Validates the configuration, then simulates: the explicit pre-flight check
/// in front of the trusting engine. The numeric behaviour for accepted inputs
/// is exactly that of `simulate`.
pub fn run(
    general_param: GeneralParam,
    calc_param: CalcParam,
    pipe_params: Vec<PipeTypeParam>,
) -> (r: Result<CalcResult, ConfigError>)
    ensures
        match r {
            Ok(result) => spec_validate(general_param, calc_param, pipe_params@) is Ok
                && spec_simulate_post(general_param, calc_param, pipe_params@, result),
            Err(e) => spec_validate(general_param, calc_param, pipe_params@) == Err::<
                (),
                ConfigError,
            >(e),
        },
{
    match validate(&general_param, &calc_param, &pipe_params) {
        Err(e) => Err(e),
        Ok(()) => Ok(simulate(general_param, calc_param, pipe_params)),
    }
}

} // verus!
