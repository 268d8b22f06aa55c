use carbide::controller::grbl::proto::{
    GrblFeedOverride, GrblLineCommand, GrblMessage, GrblRapidOverride, GrblRealtimeCommand,
    GrblRestoreCommand, GrblSpeedOverride, GrblSystemCommand,
};
use carbide::decimal::Fixed;

#[test]
fn system_commands_render() {
    assert_eq!(GrblSystemCommand::Help.into_string(), "$");
    assert_eq!(GrblSystemCommand::ViewSettings.into_string(), "$$");
    assert_eq!(GrblSystemCommand::ViewParameters.into_string(), "$#");
    assert_eq!(GrblSystemCommand::ViewParserState.into_string(), "$G");
    assert_eq!(GrblSystemCommand::ViewBuildInfo.into_string(), "$I");
    assert_eq!(GrblSystemCommand::ViewStartupBlocks.into_string(), "$N");
    assert_eq!(GrblSystemCommand::ToggleCheckMode.into_string(), "$C");
    assert_eq!(GrblSystemCommand::KillAlarmLock.into_string(), "$X");
    assert_eq!(GrblSystemCommand::RunHomingCycle.into_string(), "$H");
    assert_eq!(GrblSystemCommand::Sleep.into_string(), "$SLP");
    assert_eq!(GrblSystemCommand::Restore(GrblRestoreCommand::Settings).into_string(), "$RST=$");
    assert_eq!(GrblSystemCommand::Restore(GrblRestoreCommand::Parameters).into_string(), "$RST=#");
    assert_eq!(GrblSystemCommand::Restore(GrblRestoreCommand::All).into_string(), "$RST=*");
    assert_eq!(GrblSystemCommand::RunJoggingMotion("G91 X10 F100".to_owned()).into_string(), "$J=G91 X10 F100");
    assert_eq!(GrblSystemCommand::WriteStartupBlock { nr: 1, line: "G54".to_owned() }.into_string(), "$N1=G54");
}

#[test]
fn written_settings_use_shortest_decimal() {
    let w = |code: u8, raw: i64| GrblSystemCommand::WriteSetting { code, value: Fixed { raw } }.into_string();
    assert_eq!(w(100, 250_000_000), "$100=250");
    assert_eq!(w(12, 2_000), "$12=0.002");
    assert_eq!(w(13, 0), "$13=0");
    assert_eq!(w(0, -1_500_000), "$0=-1.5");
    assert_eq!(w(130, 123_456_789), "$130=123.456789");
    assert_eq!(w(255, 1_000_000_000), "$255=1000");
}

#[test]
fn written_setting_reads_back() {
    for (code, raw) in [(100u8, 250_000_000i64), (12, 2_000), (0, -1_500_000), (255, 7), (13, 0)] {
        let text = GrblSystemCommand::WriteSetting { code, value: Fixed { raw } }.into_string();
        assert_eq!(GrblMessage::parse(&text).unwrap(), GrblMessage::Setting { code, value: Fixed { raw } });
    }
}

#[test]
fn written_startup_block_reads_back() {
    for (nr, line) in [(0u8, "G54"), (1, ""), (200, "G21 G90 = x")] {
        let text = GrblSystemCommand::WriteStartupBlock { nr, line: line.to_owned() }.into_string();
        assert_eq!(GrblMessage::parse(&text).unwrap(), GrblMessage::StartupLine { nr, line: line.to_owned() });
    }
}

#[test]
fn lines_get_one_newline() {
    assert_eq!(GrblLineCommand::Line("G1 X10".to_owned()).to_line(), "G1 X10\n");
    assert_eq!(GrblLineCommand::Line("G1 X10".to_owned()).into_string(), "G1 X10");
    assert_eq!(GrblLineCommand::System(GrblSystemCommand::KillAlarmLock).to_line(), "$X\n");
}

#[test]
fn realtime_bytes() {
    let cases = [
        (GrblRealtimeCommand::SoftReset, 0x18u8),
        (GrblRealtimeCommand::StatusReportQuery, b'?'),
        (GrblRealtimeCommand::CycleStartResume, b'~'),
        (GrblRealtimeCommand::FeedHold, b'!'),
        (GrblRealtimeCommand::SafetyDoor, 0x84),
        (GrblRealtimeCommand::JogCancel, 0x85),
        (GrblRealtimeCommand::FeedOverride(GrblFeedOverride::Reset), 0x90),
        (GrblRealtimeCommand::FeedOverride(GrblFeedOverride::Decrease1), 0x94),
        (GrblRealtimeCommand::RapidOverride(GrblRapidOverride::Full), 0x95),
        (GrblRealtimeCommand::RapidOverride(GrblRapidOverride::Quarter), 0x97),
        (GrblRealtimeCommand::SpeedOverride(GrblSpeedOverride::Reset), 0x99),
        (GrblRealtimeCommand::SpeedOverride(GrblSpeedOverride::Increase10), 0x9A),
        (GrblRealtimeCommand::SpeedOverride(GrblSpeedOverride::Decrease1), 0x9D),
        (GrblRealtimeCommand::ToggleSpindleStop, 0x9E),
        (GrblRealtimeCommand::ToggleFloodCoolant, 0xA0),
        (GrblRealtimeCommand::ToggleMistCoolant, 0xA1),
    ];
    for (cmd, byte) in cases {
        assert_eq!(cmd.to_byte(), byte);
        assert_eq!(&cmd.to_code()[..], &[byte][..]);
    }
}
