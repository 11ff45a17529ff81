use keyleash::process::{ChannelInstall, FdCall, InstallAction, CHILD_CHANNEL_FD};

#[test]
fn endpoint_elsewhere_is_moved_onto_fd3() {
    let (mut install, first) = ChannelInstall::start(5, 6);
    assert_eq!(first, InstallAction::Call(FdCall::Close { fd: 5 }));
    assert_eq!(
        install.advance(0),
        InstallAction::Call(FdCall::Duplicate { from: 6, to: CHILD_CHANNEL_FD })
    );
    assert_eq!(install.advance(3), InstallAction::Call(FdCall::Close { fd: 6 }));
    assert_eq!(install.advance(0), InstallAction::Done);
}

#[test]
fn endpoint_already_on_fd3_only_loses_close_on_exec() {
    let (mut install, first) = ChannelInstall::start(4, 3);
    assert_eq!(first, InstallAction::Call(FdCall::Close { fd: 4 }));
    assert_eq!(
        install.advance(0),
        InstallAction::Call(FdCall::GetFlags { fd: 3 })
    );
    assert_eq!(
        install.advance(0b11),
        InstallAction::Call(FdCall::SetFlags { fd: 3, flags: 0b10 })
    );
    assert_eq!(install.advance(0), InstallAction::Done);
}

#[test]
fn any_failed_call_stops_the_installation() {
    let (mut install, _) = ChannelInstall::start(5, 6);
    assert_eq!(install.advance(-1), InstallAction::Failed);

    let (mut install, _) = ChannelInstall::start(5, 6);
    install.advance(0);
    assert_eq!(install.advance(-1), InstallAction::Failed);

    let (mut install, _) = ChannelInstall::start(4, 3);
    install.advance(0);
    assert_eq!(install.advance(-1), InstallAction::Failed);
}
