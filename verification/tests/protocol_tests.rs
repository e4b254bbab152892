use sid_device::protocol::{Command, CommandResponse, NUMBER_OF_DEVICES, PROTOCOL_VERSION};

#[test]
fn command_bytes_decode() {
    assert_eq!(Command::from_u8(0), Command::Flush);
    assert_eq!(Command::from_u8(1), Command::TrySetSidCount);
    assert_eq!(Command::from_u8(2), Command::Mute);
    assert_eq!(Command::from_u8(3), Command::TryReset);
    assert_eq!(Command::from_u8(4), Command::TryDelay);
    assert_eq!(Command::from_u8(5), Command::TryWrite);
    assert_eq!(Command::from_u8(6), Command::TryRead);
    assert_eq!(Command::from_u8(7), Command::GetVersion);
    assert_eq!(Command::from_u8(8), Command::TrySetSampling);
    assert_eq!(Command::from_u8(9), Command::TrySetClock);
    assert_eq!(Command::from_u8(10), Command::GetConfigCount);
    assert_eq!(Command::from_u8(11), Command::GetConfigInfo);
    assert_eq!(Command::from_u8(12), Command::SetSidPosition);
    assert_eq!(Command::from_u8(13), Command::SetSidLevel);
    assert_eq!(Command::from_u8(14), Command::TrySetSidModel);
    assert_eq!(Command::from_u8(15), Command::SetDelay);
    assert_eq!(Command::from_u8(16), Command::SetFadeIn);
    assert_eq!(Command::from_u8(17), Command::SetFadeOut);
    assert_eq!(Command::from_u8(18), Command::SetPsidHeader);
    assert_eq!(Command::from_u8(19), Command::Unknown);
    assert_eq!(Command::from_u8(255), Command::Unknown);
}

#[test]
fn response_codes() {
    assert_eq!(CommandResponse::Okay.code(), 0);
    assert_eq!(CommandResponse::Busy.code(), 1);
    assert_eq!(CommandResponse::Error.code(), 2);
    assert_eq!(CommandResponse::Read.code(), 3);
    assert_eq!(CommandResponse::Version.code(), 4);
    assert_eq!(CommandResponse::Count.code(), 5);
    assert_eq!(CommandResponse::Info.code(), 6);
}

#[test]
fn protocol_constants() {
    assert_eq!(PROTOCOL_VERSION, 4);
    assert_eq!(NUMBER_OF_DEVICES, 2);
}
