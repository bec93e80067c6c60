use gpu_snippets::fx_field::{field_color_ramp, field_instance, field_phases};
use gpu_snippets::fx_lines::{lines_instance, lines_phases};
use gpu_snippets::fx_spiral::{
    spiral_angle, spiral_color_ramp, spiral_main_instance, spiral_phases, spiral_rise,
    spiral_shadow_color, spiral_shadow_instance, spiral_swirl,
};
use gpu_snippets::particles::{
    color_write_due, instance_buffer_size, spiral_draw_instances, ColorPolicy, Mode,
    FIELD_PARTICLE_COUNT, LINES_PARTICLE_COUNT, SPIRAL_PARTICLE_COUNT, SPIRAL_WORKING_COUNT,
};
use gpu_snippets::scalar::Rational;

/// The scalar denotes exactly the rational `num / den`.
fn is_value(r: &Rational, num: i128, den: i128) -> bool {
    r.num * den == num * r.den
}

#[test]
fn lines_first_particle_at_start() {
    // Index 0 at time 0: every phase is zero, so sin = 0 and cos = 1.
    let inst = lines_instance(0, 0, 1_000_000, 0, 0, 0);
    assert!(is_value(&inst.x, 0, 1));
    assert!(is_value(&inst.y, -3, 2));
    assert!(is_value(&inst.z, 1, 1));
    assert!(is_value(&inst.scale, 3, 100));
}

#[test]
fn lines_phases_at_start_are_zero() {
    let p = lines_phases(0, 0);
    assert!(is_value(&p.ang, 0, 1));
    assert!(is_value(&p.sway_x, 0, 1));
    assert!(is_value(&p.sway_z, 0, 1));
    assert!(is_value(&p.twinkle, 0, 1));
}

#[test]
fn lines_phases_follow_index_and_time() {
    // time = 2 s, i = 100: ang = 2*0.5 + 100*0.005 = 1.5, sway_x = 100*0.01 +
    // 2*0.5 = 2, sway_z = 100*0.006 + 2*0.4 = 1.4, twinkle = 1.
    let p = lines_phases(100, 2_000_000);
    assert!(is_value(&p.ang, 3, 2));
    assert!(is_value(&p.sway_x, 2, 1));
    assert!(is_value(&p.sway_z, 7, 5));
    assert!(is_value(&p.twinkle, 1, 1));
}

#[test]
fn lines_y_rises_with_index() {
    // y = -1.5 + i * 0.00015.
    let inst = lines_instance(10_000, 0, 1_000_000, 0, 0, 0);
    assert!(is_value(&inst.y, 0, 1));
    let top = lines_instance(19_999, 0, 1_000_000, 0, 0, 0);
    assert!(is_value(&top.y, 1_499_850, 1_000_000));
}

#[test]
fn lines_sway_shifts_position() {
    // sin(ang) = 0.5, sin(sway_x) = -1: x = 0.5 - 0.25 = 0.25.
    let inst = lines_instance(0, 500_000, 0, -1_000_000, 1_000_000, -1_000_000);
    assert!(is_value(&inst.x, 1, 4));
    // cos(ang) = 0, sin(sway_z) = 1: z = 0.22.
    assert!(is_value(&inst.z, 22, 100));
    // scale = 0.03 - 0.01 = 0.02.
    assert!(is_value(&inst.scale, 1, 50));
}

#[test]
fn field_first_particle_at_start() {
    let inst = field_instance(0, 0, 1_000_000, 0, 0);
    assert!(is_value(&inst.x, 0, 1));
    assert!(is_value(&inst.y, -7, 2));
    assert!(is_value(&inst.z, 2, 1));
    assert!(is_value(&inst.scale, 1, 20));
}

#[test]
fn field_phases_follow_index_and_time() {
    // time = 1 s, i = 1000: ang = 0.5 + 5 = 5.5, sway_x = 12 + 1.7 = 13.7,
    // sway_z = 15 + 2.64 = 17.64, shade = 4000 * 2.3 = 9200.
    let p = field_phases(1000, 1_000_000);
    assert!(is_value(&p.ang, 11, 2));
    assert!(is_value(&p.sway_x, 137, 10));
    assert!(is_value(&p.sway_z, 1764, 100));
    assert!(is_value(&p.shade, 9200, 1));
}

#[test]
fn field_ramp_endpoints() {
    let ramp = field_color_ramp();
    let lo = ramp.evaluate(0);
    assert!(is_value(&lo.red, 119, 100));
    assert!(is_value(&lo.green, 0, 1));
    assert!(is_value(&lo.blue, 581, 100));
    assert!(is_value(&lo.alpha, 7, 1));
    let hi = ramp.evaluate(1_000_000);
    assert!(is_value(&hi.red, 7, 1));
    assert!(is_value(&hi.green, 189, 100));
    assert!(is_value(&hi.blue, 287, 100));
    assert!(is_value(&hi.alpha, 7, 1));
}

#[test]
fn spiral_phases_follow_index_and_time() {
    // i = 250 (g = 1000), time = 1 s: swirl_a = 130.3, swirl_b = 430.1,
    // rise_a = 29.7 + 1.9 = 31.6, rise_b = 5.94 + 2.9 = 8.84,
    // twinkle = 24300, shade = 2300.
    let p = spiral_phases(250, 1_000_000);
    assert!(is_value(&p.swirl_a, 1303, 10));
    assert!(is_value(&p.swirl_b, 4301, 10));
    assert!(is_value(&p.rise_a, 316, 10));
    assert!(is_value(&p.rise_b, 884, 100));
    assert!(is_value(&p.twinkle, 24_300, 1));
    assert!(is_value(&p.shade, 2300, 1));
}

#[test]
fn spiral_swirl_scales_product() {
    let off = spiral_swirl(0, 1_000_000);
    assert!(is_value(&off, 0, 1));
    let full = spiral_swirl(1_000_000, 1_000_000);
    assert!(is_value(&full, 1, 50));
    let half = spiral_swirl(500_000, -1_000_000);
    assert!(is_value(&half, -1, 100));
}

#[test]
fn spiral_angle_adds_swirl() {
    let off = spiral_swirl(1_000_000, 1_000_000);
    // g = 1000: ang = 6 + 0.02.
    let ang = spiral_angle(250, &off);
    assert!(is_value(&ang, 602, 100));
    let centre = spiral_swirl(0, 0);
    let ang0 = spiral_angle(0, &centre);
    assert!(is_value(&ang0, 0, 1));
}

#[test]
fn spiral_rise_spans_height_band() {
    assert!(is_value(&spiral_rise(0, 0), 2, 5));
    assert!(is_value(&spiral_rise(1_000_000, 1_000_000), 7, 10));
    assert!(is_value(&spiral_rise(-1_000_000, 1_000_000), 1, 10));
}

#[test]
fn spiral_main_instance_on_axis() {
    let off = spiral_swirl(0, 0);
    let h = spiral_rise(0, 0);
    // i = 250 (g = 1000): dist = 1000 / 8000 = 0.125; cos(ang) = 1,
    // sin(ang) = 0: x = 0.125, z = 0; scale = 0.08 + 0.03.
    let inst = spiral_main_instance(250, 0, 1_000_000, &off, &h, 1_000_000);
    assert!(is_value(&inst.x, 1, 8));
    assert!(is_value(&inst.y, 2, 5));
    assert!(is_value(&inst.z, 0, 1));
    assert!(is_value(&inst.scale, 11, 100));
}

#[test]
fn spiral_main_instance_offsets() {
    // off = 0.02: x gains off * 0.2, z loses off * 0.3.
    let off = spiral_swirl(1_000_000, 1_000_000);
    let h = spiral_rise(0, 0);
    let inst = spiral_main_instance(0, 0, 1_000_000, &off, &h, 0);
    assert!(is_value(&inst.x, 4, 1000));
    assert!(is_value(&inst.z, -6, 1000));
    assert!(is_value(&inst.scale, 8, 100));
}

#[test]
fn spiral_shadow_sits_on_ground() {
    let off = spiral_swirl(0, 0);
    let h = spiral_rise(0, 0);
    let inst = spiral_shadow_instance(250, 0, 1_000_000, &off, &h, 1_000_000);
    assert!(is_value(&inst.x, 1, 8));
    assert!(is_value(&inst.y, 0, 1));
    assert!(is_value(&inst.z, 0, 1));
    // h = 0.4: the fade saturates to zero, and so does the scale.
    assert!(is_value(&inst.scale, 0, 1));
}

#[test]
fn spiral_shadow_scale_fades_with_height() {
    let off = spiral_swirl(0, 0);
    // h = 0.1: fade = 1 - 0.25 = 0.75; scale = (0.09 + 0.03) * 0.75 * 25.
    let h = spiral_rise(-1_000_000, 1_000_000);
    let inst = spiral_shadow_instance(0, 0, 1_000_000, &off, &h, 1_000_000);
    assert!(is_value(&inst.scale, 225, 100));
}

#[test]
fn spiral_shadow_color_clamps_and_fades() {
    let ramp = spiral_color_ramp();
    // The overbright last stop (11, 7, 2, 5).
    let base = ramp.evaluate(1_000_000);
    let h = spiral_rise(-1_000_000, 1_000_000);
    let c = spiral_shadow_color(&base, &h);
    assert!(is_value(&c.red, 1, 1));
    assert!(is_value(&c.green, 1, 1));
    assert!(is_value(&c.blue, 1, 1));
    // alpha = fade * 0.3 = 0.75 * 0.3.
    assert!(is_value(&c.alpha, 225, 1000));
}

#[test]
fn spiral_shadow_color_keeps_unit_channels() {
    let ramp = spiral_color_ramp();
    let base = ramp.evaluate(0);
    let h = spiral_rise(0, 0);
    let c = spiral_shadow_color(&base, &h);
    assert!(is_value(&c.red, 5, 100));
    assert!(is_value(&c.green, 90, 100));
    assert!(is_value(&c.blue, 65, 100));
    assert!(is_value(&c.alpha, 0, 1));
}

#[test]
fn spiral_ramp_second_stop_exact() {
    let ramp = spiral_color_ramp();
    let c = ramp.evaluate(999_000);
    assert!(is_value(&c.red, 85, 100));
    assert!(is_value(&c.green, 25, 100));
    assert!(is_value(&c.blue, 5, 100));
    assert!(is_value(&c.alpha, 1, 1));
}

#[test]
fn instance_records_are_deterministic() {
    // The same index and samples give bit-identical records.
    let a = lines_instance(42, 123_456, -654_321, 999_999, -1, 7);
    let b = lines_instance(42, 123_456, -654_321, 999_999, -1, 7);
    assert_eq!(a.x.num, b.x.num);
    assert_eq!(a.x.den, b.x.den);
    assert_eq!(a.y.num, b.y.num);
    assert_eq!(a.z.num, b.z.num);
    assert_eq!(a.scale.num, b.scale.num);
    assert_eq!(a.scale.den, b.scale.den);
}

#[test]
fn buffer_sizes_match_strides() {
    assert_eq!(instance_buffer_size(LINES_PARTICLE_COUNT), 320_000);
    assert_eq!(instance_buffer_size(FIELD_PARTICLE_COUNT), 400_000);
    assert_eq!(instance_buffer_size(SPIRAL_PARTICLE_COUNT), 320_000);
    assert_eq!(instance_buffer_size(0), 0);
}

#[test]
fn spiral_draw_count_clamped_to_capacity() {
    // Four times the working count overshoots the declared capacity and is
    // clamped to it.
    assert_eq!(
        spiral_draw_instances(SPIRAL_WORKING_COUNT, SPIRAL_PARTICLE_COUNT),
        SPIRAL_PARTICLE_COUNT
    );
    assert_eq!(spiral_draw_instances(100, 20_000), 400);
    assert_eq!(spiral_draw_instances(5_000, 20_000), 20_000);
}

#[test]
fn color_policy_gates_writes() {
    assert!(color_write_due(&ColorPolicy::Static, true));
    assert!(!color_write_due(&ColorPolicy::Static, false));
    assert!(color_write_due(&ColorPolicy::Dynamic, true));
    assert!(color_write_due(&ColorPolicy::Dynamic, false));
}

#[test]
fn lines_mode_exists() {
    let mode = Mode::Lines;
    assert_eq!(mode, Mode::Lines);
}

#[test]
fn scalar_units_round_trip() {
    let r = Rational::from_units(250_000);
    assert!(is_value(&r, 1, 4));
    let w = Rational::from_int(-3);
    assert!(is_value(&w, -3, 1));
}
