//! Run-level properties of the engine, stated once over every input and
//! proved from the contracts of `simulation`.

use vstd::prelude::*;
use crate::bits::{add64, sub64, mul64, div64, of_uint64, F64_TWO, F64_SIX, F64_NINE, F64_TEN};
use crate::params::{GeneralParam, CalcParam, PipeTypeParam};
use crate::simulation::{CalcResult, spec_simulate_post, spec_courant, spec_flow_rate,
    spec_cell_width, spec_advected_temp};

verus! {

/// Every output series of a run with at least one configured step has exactly
/// `calculation_step` entries — one outlet series per pipe type, plus the
/// aggregate series — and entry 0 of each is the uniform initial water
/// temperature.
pub proof fn lemma_series_shape(
    gp: GeneralParam,
    cp: CalcParam,
    pps: Seq<PipeTypeParam>,
    result: CalcResult,
)
    requires
        spec_simulate_post(gp, cp, pps, result),
        cp.calculation_step >= 1,
    ensures
        result.pipe_end_temperatures@.len() == pps.len(),
        forall|i: int|
            0 <= i < pps.len() ==> (#[trigger] result.pipe_end_temperatures@[i])@.len()
                == cp.calculation_step,
        forall|i: int|
            0 <= i < pps.len() ==> (#[trigger] result.pipe_end_temperatures@[i])@[0]
                == cp.water_init_temp,
        result.average_end_temperatures@.len() == cp.calculation_step,
        result.average_end_temperatures@[0] == cp.water_init_temp,
{
}

/// The Courant number of a pipe type is exactly
/// `flow_rate * time_step / (pipe_length / mesh_count)`.
pub proof fn lemma_courant_formula(gp: GeneralParam, cp: CalcParam, pp: PipeTypeParam)
    ensures
        spec_courant(gp, cp, pp) == div64(
            mul64(spec_flow_rate(gp, cp, pp), cp.time_step),
            div64(cp.pipe_length, of_uint64(cp.mesh_count as u64)),
        ),
{
}

/// Re-running the engine on identical inputs is deterministic: any two
/// results that meet `simulate`'s contract for the same inputs carry
/// bit-identical series, entry for entry. The engine shares no state between
/// runs and consults nothing outside its arguments.
pub proof fn lemma_rerun_identical(
    gp: GeneralParam,
    cp: CalcParam,
    pps: Seq<PipeTypeParam>,
    r1: CalcResult,
    r2: CalcResult,
)
    requires
        spec_simulate_post(gp, cp, pps, r1),
        spec_simulate_post(gp, cp, pps, r2),
    ensures
        r1.pipe_flow_rates@ == r2.pipe_flow_rates@,
        r1.pipe_courants@ == r2.pipe_courants@,
        r1.average_end_temperatures@ == r2.average_end_temperatures@,
        r1.pipe_end_temperatures@.len() == r2.pipe_end_temperatures@.len(),
        forall|i: int|
            0 <= i < pps.len() ==> (#[trigger] r1.pipe_end_temperatures@[i])@
                == r2.pipe_end_temperatures@[i]@,
{
    assert(r1.pipe_flow_rates@ =~= r2.pipe_flow_rates@);
    assert(r1.pipe_courants@ =~= r2.pipe_courants@);
}

/// With a single mesh cell the upwind stencil degenerates: both upstream
/// neighbours take the inlet boundary value and both downstream neighbours
/// take the cell's own value, leaving the closed-form update
/// `T - flow * (2*w - 10*w + 9*T - 2*T + T) * dt / (6 * dx)`
/// with `w` the inlet boundary value and `T` the cell's temperature.
pub proof fn lemma_single_cell_advection(cp: CalcParam, flow: u64, temps: Seq<u64>)
    requires
        temps.len() == 1,
    ensures
        spec_advected_temp(cp, flow, temps, 0) == sub64(
            temps[0],
            div64(
                mul64(
                    mul64(
                        flow,
                        add64(
                            sub64(
                                add64(
                                    sub64(
                                        mul64(F64_TWO, cp.water_init_temp),
                                        mul64(F64_TEN, cp.water_init_temp),
                                    ),
                                    mul64(F64_NINE, temps[0]),
                                ),
                                mul64(F64_TWO, temps[0]),
                            ),
                            temps[0],
                        ),
                    ),
                    cp.time_step,
                ),
                mul64(F64_SIX, spec_cell_width(cp)),
            ),
        ),
{
}

} // verus!
