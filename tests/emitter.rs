use hr_relay::config::Config;
use hr_relay::emitter::{
    bundle_plan, file_text, AvatarParam, OscArg, ParamUpdate, TIMETAG_FRACTIONAL, TIMETAG_SECONDS,
};

fn update(param: AvatarParam, arg: OscArg) -> ParamUpdate {
    ParamUpdate { param, arg }
}

#[test]
fn zero_rate_is_inactive() {
    let cfg = Config::standard();
    let plan = bundle_plan(0, &cfg);
    assert_eq!(
        plan.updates,
        vec![
            update(AvatarParam::HrConnected, OscArg::Bool(false)),
            update(AvatarParam::IsHrActive, OscArg::Bool(false)),
            update(AvatarParam::HrPercent, OscArg::Ratio { num: 0, den: 200 }),
            update(AvatarParam::Normalised, OscArg::Ratio { num: 0, den: 240 }),
            update(AvatarParam::Hr, OscArg::Int(0)),
        ]
    );
    assert_eq!(file_text(0), b"0".to_vec());
}

#[test]
fn clamped_rate_caps_avatar_values() {
    let cfg = Config::standard();
    let sample = hr_relay::codec::clamp_sample(400);
    assert_eq!(sample, 255);
    let plan = bundle_plan(sample, &cfg);
    assert_eq!(plan.updates[0].arg, OscArg::Bool(true));
    assert_eq!(plan.updates[1].arg, OscArg::Bool(true));
    assert_eq!(plan.updates[2].arg, OscArg::Ratio { num: 200, den: 200 });
    assert_eq!(plan.updates[3].arg, OscArg::Ratio { num: 240, den: 240 });
    assert_eq!(plan.updates[4].arg, OscArg::Int(240));
    assert_eq!(file_text(sample), b"255".to_vec());
}

#[test]
fn mid_rate_fractions() {
    let cfg = Config::standard();
    let plan = bundle_plan(150, &cfg);
    assert_eq!(plan.updates[2].arg, OscArg::Ratio { num: 150, den: 200 });
    assert_eq!(plan.updates[3].arg, OscArg::Ratio { num: 150, den: 240 });
    assert_eq!(plan.updates[4].arg, OscArg::Int(150));
    let plan = bundle_plan(220, &cfg);
    assert_eq!(plan.updates[2].arg, OscArg::Ratio { num: 200, den: 200 });
    assert_eq!(plan.updates[3].arg, OscArg::Ratio { num: 220, den: 240 });
    assert_eq!(plan.updates[4].arg, OscArg::Int(220));
}

#[test]
fn custom_ceiling_scales_percent() {
    let mut cfg = Config::standard();
    cfg.max_heart_rate_for_percent = 180;
    let plan = bundle_plan(190, &cfg);
    assert_eq!(plan.updates[2].arg, OscArg::Ratio { num: 180, den: 180 });
    let plan = bundle_plan(90, &cfg);
    assert_eq!(plan.updates[2].arg, OscArg::Ratio { num: 90, den: 180 });
}

#[test]
fn same_sample_same_bundle() {
    let cfg = Config::standard();
    let a = bundle_plan(93, &cfg);
    let b = bundle_plan(93, &cfg);
    assert_eq!(a.updates, b.updates);
    assert_eq!((a.timetag_seconds, a.timetag_fractional), (b.timetag_seconds, b.timetag_fractional));
    assert_eq!((a.timetag_seconds, a.timetag_fractional), (TIMETAG_SECONDS, TIMETAG_FRACTIONAL));
    assert_eq!((TIMETAG_SECONDS, TIMETAG_FRACTIONAL), (0, 1));
}

#[test]
fn addresses() {
    assert_eq!(AvatarParam::HrConnected.address(), "/avatar/parameters/hr_connected");
    assert_eq!(AvatarParam::IsHrActive.address(), "/avatar/parameters/isHRActive");
    assert_eq!(AvatarParam::HrPercent.address(), "/avatar/parameters/hr_percent");
    assert_eq!(
        AvatarParam::Normalised.address(),
        "/avatar/parameters/VRCOSC/Heartrate/Normalised"
    );
    assert_eq!(AvatarParam::Hr.address(), "/avatar/parameters/HR");
}

#[test]
fn file_text_digits() {
    assert_eq!(file_text(7), b"7".to_vec());
    assert_eq!(file_text(10), b"10".to_vec());
    assert_eq!(file_text(72), b"72".to_vec());
    assert_eq!(file_text(100), b"100".to_vec());
    assert_eq!(file_text(109), b"109".to_vec());
}

#[test]
fn standard_config_values() {
    let cfg = Config::standard();
    assert_eq!(cfg.osc_ip, [127, 0, 0, 1]);
    assert_eq!(cfg.osc_port, 9000);
    assert_eq!(cfg.target_device_names, vec!["Xiaomi Smart Band 9", "Xiaomi Smart Band 10", "HUAWEI", "HONOR"]);
    assert_eq!(cfg.max_heart_rate_for_percent, 200);
    assert_eq!((cfg.scan_duration_secs, cfg.retry_delay_secs, cfg.heartbeat_timeout_secs), (5, 5, 15));
}
