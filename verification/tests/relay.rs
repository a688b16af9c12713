use evscript::NativeEvent;
use evscript::relay::EmitError;
use evscript::relay::ScriptEvent;
use evscript::relay::validate_event;

#[test]
fn complete_record_resolves() {
    let ev = ScriptEvent::Record { kind: Some(1), code: Some(30), value: Some(1) };
    assert_eq!(validate_event(&ev), Ok(NativeEvent { kind: 1, code: 30, value: 1 }));
}

#[test]
fn missing_value_is_refused() {
    let ev = ScriptEvent::Record { kind: Some(1), code: Some(30), value: None };
    assert_eq!(validate_event(&ev), Err(EmitError::BadField));
}

#[test]
fn missing_kind_is_refused() {
    let ev = ScriptEvent::Record { kind: None, code: Some(30), value: Some(1) };
    assert_eq!(validate_event(&ev), Err(EmitError::BadField));
}

#[test]
fn non_record_is_refused() {
    assert_eq!(validate_event(&ScriptEvent::NotARecord), Err(EmitError::NotARecord));
}

#[test]
fn wide_magnitudes_narrow_by_truncation() {
    let ev = ScriptEvent::Record {
        kind: Some(0x0001_0005),
        code: Some(0xFFFF_0002),
        value: Some(0xDEAD_BEEF),
    };
    assert_eq!(validate_event(&ev), Ok(NativeEvent { kind: 5, code: 2, value: 0xDEAD_BEEF }));
}

#[test]
fn drained_event_round_trips_unchanged() {
    let drained = evscript::InputEvent { kind: 1, code: 30, value: 1 };
    let resubmitted = ScriptEvent::Record {
        kind: Some(drained.kind),
        code: Some(drained.code),
        value: Some(drained.value),
    };
    let native = validate_event(&resubmitted).unwrap();
    assert_eq!(u32::from(native.kind), drained.kind);
    assert_eq!(u32::from(native.code), drained.code);
    assert_eq!(native.value, drained.value);
}
