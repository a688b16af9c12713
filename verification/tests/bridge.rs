use evscript::bridge::BridgeCall;
use evscript::bridge::BridgeError;
use evscript::bridge::ContextBinding;
use evscript::bridge::api_surface;
use evscript::bridge::binding_name;
use evscript::bridge::call_name;
use evscript::bridge::check_entry;
use evscript::bridge::context_bindings;
use evscript::bridge::entry_point_name;

#[test]
fn surface_is_exactly_three_calls() {
    let surface = api_surface();
    assert_eq!(surface, vec![BridgeCall::DeviceName, BridgeCall::PollNext, BridgeCall::Emit]);
}

#[test]
fn registered_names_are_fixed() {
    assert_eq!(call_name(&BridgeCall::DeviceName), "device_name");
    assert_eq!(call_name(&BridgeCall::PollNext), "next_events");
    assert_eq!(call_name(&BridgeCall::Emit), "emit_event");
}

#[test]
fn two_context_bindings_in_order() {
    assert_eq!(context_bindings(), vec![ContextBinding::Devices, ContextBinding::Output]);
    assert_eq!(binding_name(&ContextBinding::Devices), "evdevs");
    assert_eq!(binding_name(&ContextBinding::Output), "uinput");
}

#[test]
fn entry_point_must_be_main_with_no_arguments() {
    assert_eq!(entry_point_name(), "main");
    assert_eq!(check_entry(Some(0)), Ok(()));
    assert_eq!(check_entry(None), Err(BridgeError::EntryMissing));
    assert_eq!(check_entry(Some(2)), Err(BridgeError::WrongArity));
}
