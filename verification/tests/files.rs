use bh_agent::agent_error::AgentError;
use bh_agent::files::{open_options, seek_target, tell_offset, OpenFlags, SeekTarget};
use bh_agent::types::FileOpenMode;

fn flags(read: bool, write: bool, append: bool, create: bool, create_new: bool) -> OpenFlags {
    OpenFlags { read, write, append, create, create_new }
}

#[test]
fn open_options_follow_the_mode() {
    assert_eq!(open_options(FileOpenMode::Read), flags(true, false, false, false, false));
    assert_eq!(open_options(FileOpenMode::Write), flags(false, true, false, true, false));
    assert_eq!(open_options(FileOpenMode::ExclusiveWrite), flags(false, true, false, false, true));
    assert_eq!(open_options(FileOpenMode::Append), flags(false, false, true, false, false));
    assert_eq!(open_options(FileOpenMode::Update), flags(true, true, false, false, false));
}

#[test]
fn seek_target_maps_whence() {
    assert_eq!(seek_target(10, 0), Ok(SeekTarget::Start(10)));
    assert_eq!(seek_target(10, 1), Ok(SeekTarget::Current(10)));
    assert_eq!(seek_target(-10, 1), Ok(SeekTarget::Current(-10)));
    assert_eq!(seek_target(-1, 2), Ok(SeekTarget::End(-1)));
    assert_eq!(seek_target(0, 2), Ok(SeekTarget::End(0)));
}

#[test]
fn seek_target_refuses_other_whence() {
    for whence in [-1, 3, 4, i32::MAX, i32::MIN] {
        assert_eq!(seek_target(0, whence), Err(AgentError::InvalidSeekWhence));
    }
}

#[test]
fn negative_offset_from_start_keeps_its_bits() {
    assert_eq!(seek_target(-1, 0), Ok(SeekTarget::Start(u64::MAX)));
    assert_eq!(seek_target(i32::MIN, 0), Ok(SeekTarget::Start(0xffff_ffff_8000_0000)));
}

#[test]
fn tell_reports_positions_that_fit() {
    assert_eq!(tell_offset(0), Ok(0));
    assert_eq!(tell_offset(2147483647), Ok(i32::MAX));
    assert_eq!(
        tell_offset(2147483648),
        Err(AgentError::IoError("file position out of range".to_string()))
    );
}

#[test]
fn seek_from_start_then_tell_returns_the_offset() {
    for offset in [0, 1, 3, 4096, i32::MAX] {
        match seek_target(offset, 0) {
            Ok(SeekTarget::Start(position)) => assert_eq!(tell_offset(position), Ok(offset)),
            _ => panic!("a seek from the start asks for a position from the start"),
        }
    }
}
