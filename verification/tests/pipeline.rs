use charts::args::{validate_args, ArgValue};
use charts::error::{ArgRole, ChartError};
use charts::plan_invocation;
use charts::points::{point_is_retained, retained_points, serialize_samples, SamplePoint};

fn arg(name: &str, value: ArgValue) -> (String, ArgValue) {
    (name.to_string(), value)
}

fn pair(x_min: f64, x_max: f64) -> ArgValue {
    ArgValue::Pair(x_min.to_bits(), x_max.to_bits())
}

fn full_args(formula: &str, x_min: f64, x_max: f64, samples: u32) -> Vec<(String, ArgValue)> {
    vec![
        arg("formula", ArgValue::Text(formula.to_string())),
        arg("xrange", pair(x_min, x_max)),
        arg("samples", ArgValue::Count(samples)),
    ]
}

/// Runs a whole invocation the way the host adapter does: plan, then the
/// floating-point sampling loop, then the verified serializer.
fn invoke(args: Vec<(String, ArgValue)>) -> Result<String, String> {
    let plan = match plan_invocation(&args) {
        Ok(p) => p,
        Err(e) => return Err(e.message().to_string()),
    };
    let x_min = f64::from_bits(plan.x_min_bits);
    let x_max = f64::from_bits(plan.x_max_bits);
    let func = match plan.expr.bind("x") {
        Ok(f) => f,
        Err(_) => return Err("unbound".to_string()),
    };
    let mut samples: Vec<SamplePoint> = Vec::new();
    for i in 0..plan.samples {
        let x = x_min + (x_max - x_min) / plan.samples as f64 * i as f64;
        let y = func(x);
        samples.push(SamplePoint {
            y_bits: y.to_bits(),
            x_text: format!("{:.8}", x),
            y_text: format!("{:.8}", y),
        });
    }
    Ok(serialize_samples(&samples))
}

#[test]
fn finite_formula_keeps_every_sample() {
    // A formula that is finite (and nonzero) on the whole range keeps all
    // n records, in index order, starting at x_min.
    let out = invoke(full_args("x + 2", 1.0, 2.0, 3)).unwrap();
    let records: Vec<&str> = out.split("},").collect();
    assert_eq!(records.len(), 3);
    assert!(out.starts_with("{x:1.00000000,y:3.00000000}"));
}

#[test]
fn zero_samples_yield_empty_string() {
    let out = invoke(full_args("x", 0.0, 1.0, 0)).unwrap();
    assert_eq!(out, "");
}

#[test]
fn zero_samples_never_divide() {
    // With zero samples the step division must never run; a degenerate
    // range must still succeed with an empty result.
    let out = invoke(full_args("x", 5.0, 5.0, 0)).unwrap();
    assert_eq!(out, "");
}

#[test]
fn retained_points_reclassify_as_normal() {
    // The filter is exhaustive: every survivor's y round-trips through
    // the standard "normal" classification; zero, subnormal, infinite
    // and NaN values are all dropped.
    let values: Vec<f64> = vec![
        0.0,
        -0.0,
        f64::MIN_POSITIVE / 2.0,
        f64::MIN_POSITIVE,
        f64::INFINITY,
        f64::NEG_INFINITY,
        f64::NAN,
        1.0,
        -2.5,
        f64::MAX,
        f64::MIN,
    ];
    let samples: Vec<SamplePoint> = values
        .iter()
        .map(|y| SamplePoint {
            y_bits: y.to_bits(),
            x_text: format!("{:.8}", 0.0),
            y_text: format!("{:.8}", y),
        })
        .collect();
    let kept = retained_points(&samples);
    assert_eq!(kept.len(), values.iter().filter(|y| y.is_normal()).count());
    for p in &kept {
        assert!(f64::from_bits(p.y_bits).is_normal());
    }
    for y in &values {
        assert_eq!(point_is_retained(y.to_bits()), y.is_normal());
    }
}

#[test]
fn missing_formula_names_formula() {
    let args = vec![arg("xrange", pair(0.0, 1.0)), arg("samples", ArgValue::Count(2))];
    let e = plan_invocation(&args).unwrap_err();
    assert_eq!(e, ChartError::MissingOrInvalidArgument(ArgRole::Formula));
    assert_eq!(e.message(), "`get_function_points` require function formula");
}

#[test]
fn missing_xrange_names_xrange() {
    let args = vec![
        arg("formula", ArgValue::Text("x".to_string())),
        arg("samples", ArgValue::Count(2)),
    ];
    let e = plan_invocation(&args).unwrap_err();
    assert_eq!(e, ChartError::MissingOrInvalidArgument(ArgRole::XRange));
    assert_eq!(e.message(), "`get_function_points` require range for x-axis");
}

#[test]
fn missing_samples_names_samples() {
    let args = vec![
        arg("formula", ArgValue::Text("x".to_string())),
        arg("xrange", pair(0.0, 1.0)),
    ];
    let e = plan_invocation(&args).unwrap_err();
    assert_eq!(e, ChartError::MissingOrInvalidArgument(ArgRole::Samples));
    assert_eq!(e.message(), "`get_function_points` require number of samples/points");
}

#[test]
fn mistyped_argument_fails_like_missing() {
    // A present-but-ill-typed value is reported with the same message as
    // an absent one.
    let args = vec![
        arg("formula", ArgValue::Count(7)),
        arg("xrange", pair(0.0, 1.0)),
        arg("samples", ArgValue::Count(2)),
    ];
    let e = validate_args(&args).unwrap_err();
    assert_eq!(e, ChartError::MissingOrInvalidArgument(ArgRole::Formula));

    let args = vec![
        arg("formula", ArgValue::Text("x".to_string())),
        arg("xrange", ArgValue::Other),
        arg("samples", ArgValue::Count(2)),
    ];
    let e = validate_args(&args).unwrap_err();
    assert_eq!(e, ChartError::MissingOrInvalidArgument(ArgRole::XRange));

    let args = vec![
        arg("formula", ArgValue::Text("x".to_string())),
        arg("xrange", pair(0.0, 1.0)),
        arg("samples", ArgValue::Text("2".to_string())),
    ];
    let e = validate_args(&args).unwrap_err();
    assert_eq!(e, ChartError::MissingOrInvalidArgument(ArgRole::Samples));
}

#[test]
fn extra_keys_are_ignored() {
    let mut args = full_args("x^2", 0.0, 1.0, 2);
    args.push(arg("color", ArgValue::Text("red".to_string())));
    let out = invoke(args).unwrap();
    assert_eq!(out, "{x:0.50000000,y:0.25000000}");
}

#[test]
fn malformed_formula_is_a_parse_error() {
    let e = plan_invocation(&full_args("x +", 0.0, 1.0, 2)).unwrap_err();
    assert_eq!(e, ChartError::FormulaParseError);
    assert_eq!(e.message(), "Could not parse the formula");
}

#[test]
fn blank_formula_is_a_parse_error() {
    // A formula of nothing but whitespace is malformed; it must be
    // reported like any other parse failure, never handed to the
    // grammar.
    for text in [" ", "\t", "\r\n", "  \t \n "] {
        let e = plan_invocation(&full_args(text, 0.0, 1.0, 2)).unwrap_err();
        assert_eq!(e, ChartError::FormulaParseError);
        assert_eq!(e.message(), "Could not parse the formula");
    }
}

#[test]
fn empty_formula_is_a_parse_error() {
    let e = plan_invocation(&full_args("", 0.0, 1.0, 2)).unwrap_err();
    assert_eq!(e, ChartError::FormulaParseError);
}

#[test]
fn formula_without_x_is_a_bind_error() {
    let e = plan_invocation(&full_args("y + 1", 0.0, 1.0, 2)).unwrap_err();
    assert_eq!(e, ChartError::FormulaBindError);
    assert_eq!(e.message(), "Could not find the 'x' variable in the formula");
}

#[test]
fn square_drops_its_zero_point() {
    // x^2 over (0.0, 1.0) with two samples: y is 0.0 at the first
    // abscissa, and an exact zero is not a normal float, so only the
    // second point survives.
    let out = invoke(full_args("x^2", 0.0, 1.0, 2)).unwrap();
    assert_eq!(out, "{x:0.50000000,y:0.25000000}");
}

#[test]
fn reciprocal_keeps_all_three_points() {
    let out = invoke(full_args("1/x", -1.0, 1.0, 3)).unwrap();
    assert_eq!(
        out,
        "{x:-1.00000000,y:-1.00000000},{x:-0.33333333,y:-3.00000000},{x:0.33333333,y:3.00000000}"
    );
}

#[test]
fn reversed_range_samples_downward() {
    let out = invoke(full_args("x", 1.0, 0.0, 2)).unwrap();
    assert_eq!(out, "{x:1.00000000,y:1.00000000},{x:0.50000000,y:0.50000000}");
}

#[test]
fn reciprocal_drops_the_infinite_point() {
    // 1/x at x = 0 overflows to infinity; the point is dropped, not an
    // error.
    let out = invoke(full_args("1/x", 0.0, 1.0, 2)).unwrap();
    assert_eq!(out, "{x:0.50000000,y:2.00000000}");
}

#[test]
fn error_messages_are_fixed() {
    assert_eq!(
        ChartError::MissingOrInvalidArgument(ArgRole::Formula).message(),
        "`get_function_points` require function formula"
    );
    assert_eq!(
        ChartError::MissingOrInvalidArgument(ArgRole::XRange).message(),
        "`get_function_points` require range for x-axis"
    );
    assert_eq!(
        ChartError::MissingOrInvalidArgument(ArgRole::Samples).message(),
        "`get_function_points` require number of samples/points"
    );
    assert_eq!(ChartError::FormulaParseError.message(), "Could not parse the formula");
    assert_eq!(
        ChartError::FormulaBindError.message(),
        "Could not find the 'x' variable in the formula"
    );
}

#[test]
fn first_match_governs_repeated_keys() {
    let args = vec![
        arg("formula", ArgValue::Text("x".to_string())),
        arg("formula", ArgValue::Count(3)),
        arg("xrange", pair(0.0, 1.0)),
        arg("samples", ArgValue::Count(0)),
    ];
    let v = validate_args(&args).unwrap();
    assert_eq!(v.formula, "x");
    assert_eq!(v.samples, 0);
}

#[test]
fn capability_constructs_without_config_use() {
    let _calc = charts::FunctionCalculator::new(charts::HostConfig);
}
