//! Bit-level tests of the engine against a plain floating-point reference
//! model of the documented formulas (natural logarithm taken from `libm`,
//! the same implementation the library's trusted wrapper calls).

use pcm_sim::params::{CalcParam, GeneralParam, PipeTypeParam};
use pcm_sim::simulation::{
    average_outlet_temperature, init_pipes, run, simulate, CalcResult, Mesh, Pipe,
};

#[derive(Clone, Copy)]
struct RefGeneral {
    water_dens: f64,
    water_cond: f64,
    water_spec: f64,
    water_visc: f64,
    copper_cond: f64,
    pcm_latent: f64,
    pcm_dens: f64,
    nusscelt: f64,
    pcm_cond: f64,
    g: f64,
}

#[derive(Clone, Copy)]
struct RefCalc {
    mesh_count: usize,
    time_step: f64,
    calculation_step: usize,
    pipe_length: f64,
    pipe_outdir: f64,
    pipe_indir: f64,
    pcm_init_thickness: f64,
    water_init_temp: f64,
    pcm_temp: f64,
}

#[derive(Clone, Copy)]
struct RefPipeType {
    pressure_loss: f64,
    pipe_count: usize,
}

fn to_general(g: &RefGeneral) -> GeneralParam {
    GeneralParam {
        water_dens: g.water_dens.to_bits(),
        water_cond: g.water_cond.to_bits(),
        water_spec: g.water_spec.to_bits(),
        water_visc: g.water_visc.to_bits(),
        copper_cond: g.copper_cond.to_bits(),
        pcm_latent: g.pcm_latent.to_bits(),
        pcm_dens: g.pcm_dens.to_bits(),
        nusscelt: g.nusscelt.to_bits(),
        pcm_cond: g.pcm_cond.to_bits(),
        g: g.g.to_bits(),
    }
}

fn to_calc(c: &RefCalc) -> CalcParam {
    CalcParam {
        mesh_count: c.mesh_count,
        time_step: c.time_step.to_bits(),
        calculation_step: c.calculation_step,
        pipe_length: c.pipe_length.to_bits(),
        pipe_outdir: c.pipe_outdir.to_bits(),
        pipe_indir: c.pipe_indir.to_bits(),
        pcm_init_thickness: c.pcm_init_thickness.to_bits(),
        water_init_temp: c.water_init_temp.to_bits(),
        pcm_temp: c.pcm_temp.to_bits(),
    }
}

fn to_types(ps: &[RefPipeType]) -> Vec<PipeTypeParam> {
    ps.iter()
        .map(|p| PipeTypeParam { pressure_loss: p.pressure_loss.to_bits(), pipe_count: p.pipe_count })
        .collect()
}

struct RefResult {
    flow_rates: Vec<f64>,
    courants: Vec<f64>,
    end_temperatures: Vec<Vec<f64>>,
    average_end_temperatures: Vec<f64>,
}

/// The documented formulas, computed in plain binary64 arithmetic, step by
/// step: Phase A per cell, Phase B per pipe into a separate buffer, then the
/// per-step snapshot.
fn reference_simulate(g: &RefGeneral, c: &RefCalc, types: &[RefPipeType]) -> RefResult {
    let x = c.pipe_length / (c.mesh_count as f64);
    let all_pipe_count: usize = types.iter().map(|p| p.pipe_count).sum();
    let mut temps: Vec<Vec<f64>> = Vec::new();
    let mut thicknesses: Vec<Vec<f64>> = Vec::new();
    let mut flow_rates: Vec<f64> = Vec::new();
    let mut composition_rates: Vec<f64> = Vec::new();
    for p in types {
        temps.push(vec![c.water_init_temp; c.mesh_count]);
        thicknesses.push(vec![c.pcm_init_thickness; c.mesh_count]);
        flow_rates.push(
            2.0 * (c.pipe_indir * c.pipe_indir) * p.pressure_loss * 1.0e6
                / (64.0 * c.pipe_length * g.water_visc * g.water_dens),
        );
        composition_rates.push(p.pipe_count as f64 / all_pipe_count as f64);
    }
    let mut result = RefResult {
        flow_rates: flow_rates.clone(),
        courants: flow_rates.iter().map(|f| f * c.time_step / x).collect(),
        end_temperatures: vec![vec![c.water_init_temp]; types.len()],
        average_end_temperatures: vec![c.water_init_temp],
    };
    for _ in 1..c.calculation_step {
        for p in 0..types.len() {
            for i in 0..c.mesh_count {
                let th = thicknesses[p][i];
                let t = temps[p][i];
                let k = 1.0
                    / (1.0 / (g.nusscelt * g.water_cond)
                        + libm::log(c.pipe_outdir / c.pipe_indir) / (2.0 * g.copper_cond)
                        + libm::log((c.pipe_outdir + 2.0 * th) / c.pipe_outdir)
                            / (2.0 * g.pcm_cond));
                let delta_temp = 4.0 * k * (c.pcm_temp - t) * c.time_step
                    / (c.pipe_indir * g.water_spec * g.water_dens);
                let delta_th = (c.pipe_indir * c.pipe_indir) * g.water_spec * g.water_dens
                    * delta_temp
                    / (4.0 * (c.pipe_outdir + 2.0 * th) * g.pcm_dens * g.pcm_latent);
                temps[p][i] = t + delta_temp;
                thicknesses[p][i] = th + delta_th;
            }
            let mut next = vec![0.0f64; c.mesh_count];
            for i in 0..c.mesh_count {
                let t_p2 = if i < 2 { c.water_init_temp } else { temps[p][i - 2] };
                let t_p1 = if i < 1 { c.water_init_temp } else { temps[p][i - 1] };
                let t_c = temps[p][i];
                let t_n1 = if i + 1 >= c.mesh_count { temps[p][i] } else { temps[p][i + 1] };
                let t_n2 = if i + 2 >= c.mesh_count { t_n1 } else { temps[p][i + 2] };
                next[i] = t_c
                    - flow_rates[p] * (2.0 * t_p2 - 10.0 * t_p1 + 9.0 * t_c - 2.0 * t_n1 + t_n2)
                        * c.time_step
                        / (6.0 * x);
            }
            temps[p] = next;
        }
        for p in 0..types.len() {
            result.end_temperatures[p].push(temps[p][c.mesh_count - 1]);
        }
        let num: f64 = (0..types.len())
            .map(|p| flow_rates[p] * composition_rates[p] * temps[p][c.mesh_count - 1])
            .sum();
        let den: f64 = (0..types.len()).map(|p| flow_rates[p] * composition_rates[p]).sum();
        result.average_end_temperatures.push(num / den);
    }
    result
}

fn sample_general() -> RefGeneral {
    RefGeneral {
        water_dens: 998.0,
        water_cond: 0.6,
        water_spec: 4182.0,
        water_visc: 0.001,
        copper_cond: 398.0,
        pcm_latent: 334000.0,
        pcm_dens: 900.0,
        nusscelt: 3.66,
        pcm_cond: 0.2,
        g: 9.81,
    }
}

fn sample_calc() -> RefCalc {
    RefCalc {
        mesh_count: 3,
        time_step: 0.25,
        calculation_step: 5,
        pipe_length: 2.0,
        pipe_outdir: 0.012,
        pipe_indir: 0.010,
        pcm_init_thickness: 0.001,
        water_init_temp: 25.0,
        pcm_temp: 5.0,
    }
}

fn assert_bits_eq(label: &str, got: u64, want: f64) {
    assert_eq!(
        got,
        want.to_bits(),
        "{}: got {} want {}",
        label,
        f64::from_bits(got),
        want
    );
}

/// The whole run, bit for bit against the reference model: flow rates,
/// Courant numbers, every outlet entry and every aggregate entry.
#[test]
fn run_matches_reference_model_bit_for_bit() {
    let g = sample_general();
    let c = sample_calc();
    let types = [
        RefPipeType { pressure_loss: 0.002, pipe_count: 3 },
        RefPipeType { pressure_loss: 0.004, pipe_count: 1 },
    ];
    let want = reference_simulate(&g, &c, &types);
    let got = simulate(to_general(&g), to_calc(&c), to_types(&types));
    assert_eq!(got.pipe_flow_rates.len(), 2);
    assert_eq!(got.pipe_courants.len(), 2);
    assert_eq!(got.pipe_end_temperatures.len(), 2);
    for p in 0..2 {
        assert_bits_eq("flow rate", got.pipe_flow_rates[p], want.flow_rates[p]);
        assert_bits_eq("courant", got.pipe_courants[p], want.courants[p]);
        assert_eq!(got.pipe_end_temperatures[p].len(), c.calculation_step);
        for s in 0..c.calculation_step {
            assert_bits_eq(
                "outlet entry",
                got.pipe_end_temperatures[p][s],
                want.end_temperatures[p][s],
            );
        }
    }
    assert_eq!(got.average_end_temperatures.len(), c.calculation_step);
    for s in 0..c.calculation_step {
        assert_bits_eq(
            "aggregate entry",
            got.average_end_temperatures[s],
            want.average_end_temperatures[s],
        );
    }
}

/// An empty default result: no pipes, no recorded steps.
#[test]
fn default_result_is_empty() {
    let r = CalcResult::default();
    assert!(r.pipe_courants.is_empty());
    assert!(r.pipe_flow_rates.is_empty());
    assert!(r.pipe_end_temperatures.is_empty());
    assert!(r.average_end_temperatures.is_empty());
}

/// Composition shares over all pipe types sum to one (within floating-point
/// tolerance) whenever the total pipe count is positive.
#[test]
fn composition_rates_sum_to_one() {
    let g = to_general(&sample_general());
    let c = to_calc(&sample_calc());
    let types = to_types(&[
        RefPipeType { pressure_loss: 0.002, pipe_count: 3 },
        RefPipeType { pressure_loss: 0.004, pipe_count: 1 },
        RefPipeType { pressure_loss: 0.001, pipe_count: 4 },
    ]);
    let pipes = init_pipes(&g, &c, &types);
    let sum: f64 = pipes.iter().map(|p| f64::from_bits(p.composition_rate)).sum();
    assert!((sum - 1.0).abs() < 1e-12, "composition sum {}", sum);
}

/// Every output series has exactly `calculation_step` entries and starts at
/// the initial water temperature.
#[test]
fn series_have_step_count_entries_starting_at_initial_temperature() {
    let g = sample_general();
    let mut c = sample_calc();
    c.calculation_step = 7;
    let types = [
        RefPipeType { pressure_loss: 0.002, pipe_count: 2 },
        RefPipeType { pressure_loss: 0.003, pipe_count: 5 },
    ];
    let got = simulate(to_general(&g), to_calc(&c), to_types(&types));
    assert_eq!(got.pipe_end_temperatures.len(), 2);
    for p in 0..2 {
        assert_eq!(got.pipe_end_temperatures[p].len(), 7);
        assert_bits_eq("first outlet entry", got.pipe_end_temperatures[p][0], 25.0);
    }
    assert_eq!(got.average_end_temperatures.len(), 7);
    assert_bits_eq("first aggregate entry", got.average_end_temperatures[0], 25.0);
}

/// The Courant number is exactly `flow_rate * time_step / (pipe_length /
/// mesh_count)`.
#[test]
fn courant_number_is_the_direct_formula() {
    let g = sample_general();
    let c = sample_calc();
    let types = [RefPipeType { pressure_loss: 0.002, pipe_count: 1 }];
    let got = simulate(to_general(&g), to_calc(&c), to_types(&types));
    let flow = 2.0 * (c.pipe_indir * c.pipe_indir) * 0.002 * 1.0e6
        / (64.0 * c.pipe_length * g.water_visc * g.water_dens);
    let want = flow * c.time_step / (c.pipe_length / (c.mesh_count as f64));
    assert_bits_eq("courant", got.pipe_courants[0], want);
    assert_bits_eq("flow rate", got.pipe_flow_rates[0], flow);
}

/// With the PCM source at the initial water temperature every increment is
/// zero and all series stay constant, whatever the mesh and pipe counts.
#[test]
fn equal_temperatures_give_a_constant_steady_state() {
    let g = sample_general();
    for mesh_count in [1usize, 2, 5] {
        let mut c = sample_calc();
        c.mesh_count = mesh_count;
        c.pcm_temp = 25.0;
        c.water_init_temp = 25.0;
        c.calculation_step = 6;
        let types = [
            RefPipeType { pressure_loss: 0.002, pipe_count: 2 },
            RefPipeType { pressure_loss: 0.005, pipe_count: 3 },
        ];
        let got = simulate(to_general(&g), to_calc(&c), to_types(&types));
        for p in 0..2 {
            for s in 0..6 {
                assert_bits_eq("steady outlet", got.pipe_end_temperatures[p][s], 25.0);
            }
        }
        // The aggregate mean rounds `sum(f*c*25) / sum(f*c)` and may differ
        // from 25 by an ulp, unlike the outlet series themselves.
        for s in 0..6 {
            let avg = f64::from_bits(got.average_end_temperatures[s]);
            assert!((avg - 25.0).abs() < 1e-12, "steady aggregate {}", avg);
        }
    }
}

/// With a single mesh cell the upwind stencil degenerates to a closed form:
/// both upstream substitutes are the inlet value, both downstream substitutes
/// the cell's own Phase-A temperature.
#[test]
fn single_cell_run_matches_closed_form() {
    let g = sample_general();
    let mut c = sample_calc();
    c.mesh_count = 1;
    c.calculation_step = 2;
    let types = [RefPipeType { pressure_loss: 0.002, pipe_count: 1 }];
    let got = simulate(to_general(&g), to_calc(&c), to_types(&types));

    // Closed form for the one recorded step.
    let x = c.pipe_length / 1.0;
    let flow = 2.0 * (c.pipe_indir * c.pipe_indir) * 0.002 * 1.0e6
        / (64.0 * c.pipe_length * g.water_visc * g.water_dens);
    let th = c.pcm_init_thickness;
    let k = 1.0
        / (1.0 / (g.nusscelt * g.water_cond)
            + libm::log(c.pipe_outdir / c.pipe_indir) / (2.0 * g.copper_cond)
            + libm::log((c.pipe_outdir + 2.0 * th) / c.pipe_outdir) / (2.0 * g.pcm_cond));
    let delta_temp = 4.0 * k * (c.pcm_temp - c.water_init_temp) * c.time_step
        / (c.pipe_indir * g.water_spec * g.water_dens);
    let t_a = c.water_init_temp + delta_temp;
    let w = c.water_init_temp;
    let stencil = 2.0 * w - 10.0 * w + 9.0 * t_a - 2.0 * t_a + t_a;
    let want = t_a - flow * stencil * c.time_step / (6.0 * x);

    assert_eq!(got.pipe_end_temperatures[0].len(), 2);
    assert_bits_eq("single-cell step", got.pipe_end_temperatures[0][1], want);
    // The update must actually move the temperature for these inputs.
    assert_ne!(got.pipe_end_temperatures[0][1], 25.0f64.to_bits());
}

/// With equal flow rates the aggregate outlet temperature weighs the types by
/// composition alone: shares 0.75 and 0.25 of 25 and 21 degrees give 24.
#[test]
fn equal_flows_weigh_by_composition_alone() {
    let pipes = vec![
        Pipe {
            meshes: vec![Mesh { temp: 25.0f64.to_bits(), pcm_thickness: 0.001f64.to_bits() }],
            flow_rate: 1.0f64.to_bits(),
            composition_rate: 0.75f64.to_bits(),
        },
        Pipe {
            meshes: vec![Mesh { temp: 21.0f64.to_bits(), pcm_thickness: 0.001f64.to_bits() }],
            flow_rate: 1.0f64.to_bits(),
            composition_rate: 0.25f64.to_bits(),
        },
    ];
    let avg = average_outlet_temperature(&pipes);
    assert_bits_eq("weighted mean", avg, 24.0);
}

/// Re-running the stepper on identical inputs yields bit-identical output.
#[test]
fn rerun_is_bit_identical() {
    let g = sample_general();
    let c = sample_calc();
    let types = [
        RefPipeType { pressure_loss: 0.002, pipe_count: 3 },
        RefPipeType { pressure_loss: 0.004, pipe_count: 1 },
    ];
    let r1 = simulate(to_general(&g), to_calc(&c), to_types(&types));
    let r2 = simulate(to_general(&g), to_calc(&c), to_types(&types));
    assert_eq!(r1.pipe_flow_rates, r2.pipe_flow_rates);
    assert_eq!(r1.pipe_courants, r2.pipe_courants);
    assert_eq!(r1.pipe_end_temperatures, r2.pipe_end_temperatures);
    assert_eq!(r1.average_end_temperatures, r2.average_end_temperatures);
}

/// A second whole run with more cells and three pipe types, bit for bit.
#[test]
fn larger_run_matches_reference_model_bit_for_bit() {
    let g = sample_general();
    let mut c = sample_calc();
    c.mesh_count = 6;
    c.calculation_step = 4;
    let types = [
        RefPipeType { pressure_loss: 0.001, pipe_count: 2 },
        RefPipeType { pressure_loss: 0.003, pipe_count: 5 },
        RefPipeType { pressure_loss: 0.0005, pipe_count: 1 },
    ];
    let want = reference_simulate(&g, &c, &types);
    let got = simulate(to_general(&g), to_calc(&c), to_types(&types));
    for p in 0..3 {
        for s in 0..c.calculation_step {
            assert_bits_eq(
                "outlet entry",
                got.pipe_end_temperatures[p][s],
                want.end_temperatures[p][s],
            );
        }
    }
    for s in 0..c.calculation_step {
        assert_bits_eq(
            "aggregate entry",
            got.average_end_temperatures[s],
            want.average_end_temperatures[s],
        );
    }
}

/// With no pipe types at all the run still records its steps: the per-type
/// series are absent and the aggregate entries after the initial one are the
/// undefined quotient of empty sums.
#[test]
fn run_without_pipe_types_records_undefined_aggregates() {
    let g = sample_general();
    let mut c = sample_calc();
    c.calculation_step = 3;
    let got = simulate(to_general(&g), to_calc(&c), Vec::new());
    assert!(got.pipe_flow_rates.is_empty());
    assert!(got.pipe_courants.is_empty());
    assert!(got.pipe_end_temperatures.is_empty());
    assert_eq!(got.average_end_temperatures.len(), 3);
    assert_bits_eq("initial aggregate", got.average_end_temperatures[0], 25.0);
    for s in 1..3 {
        assert!(f64::from_bits(got.average_end_temperatures[s]).is_nan());
    }
}

/// With one configured step (or none) no iteration runs and every series
/// holds just the initial condition.
#[test]
fn single_step_run_holds_only_the_initial_condition() {
    let g = sample_general();
    let types = [RefPipeType { pressure_loss: 0.002, pipe_count: 1 }];
    for steps in [0usize, 1] {
        let mut c = sample_calc();
        c.calculation_step = steps;
        let got = simulate(to_general(&g), to_calc(&c), to_types(&types));
        assert_eq!(got.pipe_end_temperatures[0].len(), 1);
        assert_bits_eq("lone outlet entry", got.pipe_end_temperatures[0][0], 25.0);
        assert_eq!(got.average_end_temperatures.len(), 1);
        assert_bits_eq("lone aggregate entry", got.average_end_temperatures[0], 25.0);
    }
}

/// `run` validates first, then behaves exactly like the engine.
#[test]
fn run_validates_then_simulates() {
    let g = sample_general();
    let c = sample_calc();
    let types = [RefPipeType { pressure_loss: 0.002, pipe_count: 2 }];
    let direct = simulate(to_general(&g), to_calc(&c), to_types(&types));
    let checked = run(to_general(&g), to_calc(&c), to_types(&types)).expect("valid configuration");
    assert_eq!(direct.average_end_temperatures, checked.average_end_temperatures);
    assert_eq!(direct.pipe_end_temperatures, checked.pipe_end_temperatures);

    let mut bad = to_calc(&c);
    bad.mesh_count = 0;
    assert!(run(to_general(&g), bad, to_types(&types)).is_err());
}
