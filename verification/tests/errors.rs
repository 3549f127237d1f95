use launchpad::Error;

#[test]
fn errors_describe_themselves() {
    assert_eq!(Error::InvalidLocation.message(), "invalid location");
    assert_eq!(Error::NoDevicesFound.message(), "No midi devices found");
    assert_eq!(Error::Midi(String::from("port closed")).message(), "midi error: port closed");
    assert_eq!(Error::Midi(String::new()).message(), "midi error: ");
}
