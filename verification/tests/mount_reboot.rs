use app_manager::config::TimeValue;
use app_manager::mount::{
    MountAction, MountError, MountManager, MountMode, MountState, State, DEFAULT_PASSWORD,
};
use app_manager::operation::Operation;
use app_manager::reboot::{
    time_until_reboot_check, utc_offset_hours, RebootAction, RebootError, RebootManager,
    RebootManagerMessage, RebootPending, RebootReport, RebootSchedule, RebootTask, RebootTimer,
    RebootWake, CHECK_COOLDOWN_SECONDS, CLOCK_LIMIT, NANOS_PER_DAY, REBOOT_REQUIRED_PATH,
};
use app_manager::step::Outcome;

const HOUR: i128 = 3_600_000_000_000;
const MINUTE: i128 = 60_000_000_000;

fn mount_run(
    local_key: Option<&str>,
    outcomes: Vec<Outcome>,
) -> (State, MountManager, Vec<MountAction>) {
    let mut state = State::new();
    let mut manager = MountManager::mount_if_needed(local_key.map(|k| k.to_string()));
    let mut actions = vec![manager.awaiting()];
    for outcome in outcomes {
        assert!(manager.accepts(&outcome), "{:?} {:?}", manager.awaiting(), outcome);
        actions.push(manager.step(&mut state, outcome));
    }
    (state, manager, actions)
}

#[test]
fn new_state_is_not_mounted() {
    assert_eq!(MountState::new().mode(), MountMode::NotMounted);
    assert_eq!(MountState::default().mode(), MountMode::NotMounted);
    assert_eq!(State::new().mount_state.mode(), MountMode::NotMounted);
}

#[test]
fn storage_that_is_already_mounted_has_an_unknown_key() {
    let (state, manager, actions) = mount_run(Some("local"), vec![Outcome::Exists(true)]);
    assert_eq!(actions, vec![MountAction::CheckAvailability, MountAction::Finish(Ok(()))]);
    assert_eq!(state.mount_state.mode(), MountMode::MountedWithUnknownKey);
    assert!(manager.key().is_none());
}

#[test]
fn remote_key_opens_the_storage() {
    let (state, manager, actions) = mount_run(
        Some("local"),
        vec![
            Outcome::Exists(false),
            Outcome::Text("remote".to_string()),
            Outcome::Exited(Some(1)),
            Outcome::Succeeded,
        ],
    );
    assert_eq!(
        actions,
        vec![
            MountAction::CheckAvailability,
            MountAction::FetchRemoteKey,
            MountAction::CheckDefaultPassword,
            MountAction::OpenStorage,
            MountAction::Finish(Ok(())),
        ]
    );
    assert_eq!(manager.key().map(|k| k.as_str()), Some("remote"));
    assert_eq!(state.mount_state.mode(), MountMode::MountedWithRemoteKey);
}

#[test]
fn default_password_is_changed_to_the_key() {
    let (state, manager, actions) = mount_run(
        None,
        vec![
            Outcome::Exists(false),
            Outcome::Text("remote".to_string()),
            Outcome::Succeeded,
            Outcome::Succeeded,
            Outcome::Succeeded,
        ],
    );
    assert_eq!(
        actions,
        vec![
            MountAction::CheckAvailability,
            MountAction::FetchRemoteKey,
            MountAction::CheckDefaultPassword,
            MountAction::ChangePassword,
            MountAction::OpenStorage,
            MountAction::Finish(Ok(())),
        ]
    );
    assert_eq!(manager.key().map(|k| k.as_str()), Some("remote"));
    assert_eq!(state.mount_state.mode(), MountMode::MountedWithRemoteKey);
}

#[test]
fn local_key_is_the_fallback() {
    let (state, manager, actions) = mount_run(
        Some("local"),
        vec![
            Outcome::Exists(false),
            Outcome::Failed,
            Outcome::Exited(None),
            Outcome::Succeeded,
        ],
    );
    assert_eq!(actions[3], MountAction::OpenStorage);
    assert_eq!(manager.key().map(|k| k.as_str()), Some("local"));
    assert_eq!(state.mount_state.mode(), MountMode::MountedWithLocalKey);
}

#[test]
fn default_password_opens_storage_that_still_has_it() {
    assert_eq!(DEFAULT_PASSWORD, "password\n");
    let (state, manager, actions) = mount_run(
        None,
        vec![
            Outcome::Exists(false),
            Outcome::Failed,
            Outcome::Succeeded,
            Outcome::Succeeded,
        ],
    );
    assert_eq!(
        actions,
        vec![
            MountAction::CheckAvailability,
            MountAction::FetchRemoteKey,
            MountAction::CheckDefaultPassword,
            MountAction::OpenStorage,
            MountAction::Finish(Ok(())),
        ]
    );
    assert_eq!(manager.key().map(|k| k.as_str()), Some("password\n"));
    assert_eq!(state.mount_state.mode(), MountMode::MountedWithDefaultKey);
}

#[test]
fn without_any_key_the_mount_fails() {
    let (state, _, actions) = mount_run(
        None,
        vec![Outcome::Exists(false), Outcome::Failed, Outcome::Exited(Some(1))],
    );
    assert_eq!(actions[3], MountAction::Finish(Err(MountError::GetKeyFailed)));
    assert_eq!(state.mount_state.mode(), MountMode::NotMounted);
}

#[test]
fn failed_scripts_fail_the_mount() {
    let (state, _, actions) = mount_run(
        None,
        vec![
            Outcome::Exists(false),
            Outcome::Text("remote".to_string()),
            Outcome::SpawnFailed,
        ],
    );
    assert_eq!(actions[3], MountAction::Finish(Err(MountError::ProcessStartFailed)));
    assert_eq!(state.mount_state.mode(), MountMode::NotMounted);

    let (_, _, actions) = mount_run(
        None,
        vec![
            Outcome::Exists(false),
            Outcome::Text("remote".to_string()),
            Outcome::Succeeded,
            Outcome::StdinFailed,
        ],
    );
    assert_eq!(actions[4], MountAction::Finish(Err(MountError::ProcessStdinFailed)));

    let (state, _, actions) = mount_run(
        None,
        vec![
            Outcome::Exists(false),
            Outcome::Text("remote".to_string()),
            Outcome::Exited(Some(1)),
            Outcome::Exited(Some(3)),
        ],
    );
    assert_eq!(actions[4], MountAction::Finish(Err(MountError::CommandFailed(Some(3)))));
    assert_eq!(state.mount_state.mode(), MountMode::NotMounted);
}

#[test]
fn mounted_mode_is_never_set_back() {
    let mut state = State::new();
    let mut manager = MountManager::mount_if_needed(None);
    manager.step(&mut state, Outcome::Exists(false));
    manager.step(&mut state, Outcome::Text("remote".to_string()));
    manager.step(&mut state, Outcome::Exited(Some(1)));
    manager.step(&mut state, Outcome::Succeeded);
    assert_eq!(state.mount_state.mode(), MountMode::MountedWithRemoteKey);
    // A later attempt that fails leaves the record alone.
    let mut manager = MountManager::mount_if_needed(None);
    manager.step(&mut state, Outcome::Exists(false));
    manager.step(&mut state, Outcome::Failed);
    manager.step(&mut state, Outcome::Exited(Some(1)));
    assert_eq!(manager.awaiting(), MountAction::Finish(Err(MountError::GetKeyFailed)));
    assert_eq!(state.mount_state.mode(), MountMode::MountedWithRemoteKey);
    // And so does the unmount.
    let mut manager = MountManager::unmount_if_needed();
    manager.step(&mut state, Outcome::Exists(true));
    manager.step(&mut state, Outcome::Succeeded);
    assert_eq!(manager.awaiting(), MountAction::Finish(Ok(())));
    assert_eq!(state.mount_state.mode(), MountMode::MountedWithRemoteKey);
}

#[test]
fn unmount_closes_storage_that_is_there() {
    let mut state = State::new();
    let mut manager = MountManager::unmount_if_needed();
    assert_eq!(manager.awaiting(), MountAction::CheckAvailability);
    assert_eq!(manager.step(&mut state, Outcome::Exists(true)), MountAction::CloseStorage);
    assert_eq!(
        manager.step(&mut state, Outcome::Exited(Some(1))),
        MountAction::Finish(Err(MountError::CommandFailed(Some(1))))
    );
    let mut manager = MountManager::unmount_if_needed();
    assert_eq!(
        manager.step(&mut state, Outcome::Exists(false)),
        MountAction::Finish(Ok(()))
    );
    assert_eq!(state.mount_state.mode(), MountMode::NotMounted);
}

#[test]
fn mount_error_messages() {
    assert_eq!(MountError::GetKeyFailed.message(), "Getting key failed");
    assert_eq!(MountError::ProcessStdinFailed.message(), "Process stdin writing failed");
}

fn reboot_run(mut manager: RebootManager, outcomes: Vec<Outcome>) -> Vec<RebootAction> {
    let mut actions = vec![manager.awaiting()];
    for outcome in outcomes {
        assert!(manager.accepts(&outcome));
        actions.push(manager.step(outcome));
    }
    actions
}

fn pending(set: bool) -> RebootPending {
    let mut latch = RebootPending::new();
    if set {
        latch.set();
    }
    latch
}

#[test]
fn reboot_latch_is_set_once_and_stays_set() {
    let mut latch = RebootPending::new();
    assert!(!latch.is_set());
    latch.set();
    assert!(latch.is_set());
    latch.set();
    assert!(latch.is_set());
}

#[test]
fn reboot_interlocked_by_unavailable_key_provider() {
    let latch = pending(true);
    let manager = RebootManager::handle_message(
        RebootManagerMessage::RebootNow,
        &latch,
        MountMode::MountedWithRemoteKey,
    );
    match manager.operation() {
        Some(Operation::FetchEncryptionKey) => {}
        other => panic!("{:?}", other),
    }
    let actions = reboot_run(manager, vec![Outcome::Failed]);
    assert_eq!(
        actions,
        vec![
            RebootAction::CheckKeyAvailability,
            RebootAction::Finish(RebootReport {
                needed: true,
                result: Err(RebootError::GetKeyFailed)
            }),
        ]
    );
    assert!(!actions.contains(&RebootAction::Reboot));
    assert!(latch.is_set());
}

#[test]
fn reboot_goes_ahead_when_the_key_is_available() {
    let manager = RebootManager::handle_message(
        RebootManagerMessage::RebootNow,
        &pending(false),
        MountMode::MountedWithRemoteKey,
    );
    let actions = reboot_run(
        manager,
        vec![Outcome::Text("key".to_string()), Outcome::Succeeded],
    );
    assert_eq!(
        actions,
        vec![
            RebootAction::CheckKeyAvailability,
            RebootAction::Reboot,
            RebootAction::Finish(RebootReport { needed: true, result: Ok(()) }),
        ]
    );
}

#[test]
fn other_mount_modes_bypass_the_interlock() {
    for mode in [
        MountMode::NotMounted,
        MountMode::MountedWithLocalKey,
        MountMode::MountedWithDefaultKey,
        MountMode::MountedWithUnknownKey,
    ] {
        let manager =
            RebootManager::handle_message(RebootManagerMessage::RebootNow, &pending(false), mode);
        assert_eq!(manager.awaiting(), RebootAction::Reboot);
        match manager.operation() {
            Some(Operation::Run { command }) => {
                assert_eq!(command.program, "sudo");
                assert_eq!(command.args, vec!["reboot".to_string()]);
            }
            other => panic!("{:?}", other),
        }
    }
}

#[test]
fn daily_check_reboots_when_the_system_calls_for_it_or_the_latch_is_set() {
    assert_eq!(REBOOT_REQUIRED_PATH, "/var/run/reboot-required");
    let manager = RebootManager::reboot_if_needed(&pending(false), MountMode::NotMounted);
    match manager.operation() {
        Some(Operation::PathExists { path }) => assert_eq!(path, "/var/run/reboot-required"),
        other => panic!("{:?}", other),
    }
    assert_eq!(
        reboot_run(manager, vec![Outcome::Exists(false)]),
        vec![
            RebootAction::CheckRebootRequired,
            RebootAction::Finish(RebootReport { needed: false, result: Ok(()) }),
        ]
    );
    let manager = RebootManager::reboot_if_needed(&pending(false), MountMode::NotMounted);
    assert_eq!(
        reboot_run(manager, vec![Outcome::Exists(true)])[1],
        RebootAction::Reboot
    );
    let manager = RebootManager::reboot_if_needed(&pending(true), MountMode::NotMounted);
    assert_eq!(
        reboot_run(manager, vec![Outcome::Exists(false)])[1],
        RebootAction::Reboot
    );
    let manager = RebootManager::reboot_if_needed(&pending(true), MountMode::MountedWithRemoteKey);
    assert_eq!(
        reboot_run(manager, vec![Outcome::Exists(false)])[1],
        RebootAction::CheckKeyAvailability
    );
}

#[test]
fn failed_reboot_command_is_reported() {
    let manager = RebootManager::handle_message(
        RebootManagerMessage::RebootNow,
        &pending(false),
        MountMode::NotMounted,
    );
    assert_eq!(
        reboot_run(manager, vec![Outcome::Exited(Some(4))])[1],
        RebootAction::Finish(RebootReport {
            needed: true,
            result: Err(RebootError::CommandFailed(Some(4)))
        })
    );
    let manager = RebootManager::handle_message(
        RebootManagerMessage::RebootNow,
        &pending(false),
        MountMode::NotMounted,
    );
    assert_eq!(
        reboot_run(manager, vec![Outcome::SpawnFailed])[1],
        RebootAction::Finish(RebootReport {
            needed: true,
            result: Err(RebootError::ProcessStartFailed)
        })
    );
}

#[test]
fn utc_offset_is_read_in_whole_hours() {
    assert_eq!(utc_offset_hours("+0200\n"), Ok(2));
    assert_eq!(utc_offset_hours("-0500\n"), Ok(-5));
    assert_eq!(utc_offset_hours("+1100"), Ok(11));
    assert_eq!(utc_offset_hours("-1200"), Ok(-12));
    assert_eq!(utc_offset_hours("+0000\n"), Ok(0));
    // Minutes are left out.
    assert_eq!(utc_offset_hours("+0530\n"), Ok(5));
    assert_eq!(utc_offset_hours("-0330\n"), Ok(-3));
    assert_eq!(utc_offset_hours("+0045\n"), Ok(0));
}

#[test]
fn utc_offset_is_read_from_the_date_command() {
    let command = app_manager::reboot::utc_offset_command();
    assert_eq!(command.program, "date");
    assert_eq!(command.args, vec!["+%z".to_string()]);
    assert_eq!(command.current_dir, None);
    let read = app_manager::reboot::utc_offset_of;
    assert_eq!(read(&Outcome::Text("+0300\n".to_string())), Ok(3));
    assert_eq!(read(&Outcome::Text("x".to_string())), Err(RebootError::InvalidOutput));
    assert_eq!(read(&Outcome::Exited(Some(1))), Err(RebootError::CommandFailed(Some(1))));
    assert_eq!(read(&Outcome::Invalid), Err(RebootError::InvalidOutput));
    assert_eq!(read(&Outcome::SpawnFailed), Err(RebootError::ProcessWaitFailed));
}

#[test]
fn unreadable_utc_offset_is_invalid_output() {
    assert_eq!(utc_offset_hours(""), Err(RebootError::InvalidOutput));
    assert_eq!(utc_offset_hours("+"), Err(RebootError::InvalidOutput));
    assert_eq!(utc_offset_hours("UTC"), Err(RebootError::InvalidOutput));
    assert_eq!(utc_offset_hours("+ab00"), Err(RebootError::InvalidOutput));
    assert_eq!(utc_offset_hours("+0a00"), Err(RebootError::InvalidOutput));
}

#[test]
fn time_until_the_check_today() {
    let noon = TimeValue { hours: 12, minutes: 0 };
    assert_eq!(time_until_reboot_check(0, 0, &noon), Ok(43_200_000_000_000));
    assert_eq!(
        time_until_reboot_check(11 * HOUR + 59 * MINUTE + 59_999_999_999, 0, &noon),
        Ok(1)
    );
    let time = TimeValue { hours: 23, minutes: 59 };
    assert_eq!(
        time_until_reboot_check(1_700_000_000_000_000_000, 0, &time),
        Ok((23 * HOUR + 59 * MINUTE - (22 * HOUR + 13 * MINUTE + 20_000_000_000)) as u64)
    );
}

#[test]
fn time_until_the_check_tomorrow() {
    let noon = TimeValue { hours: 12, minutes: 0 };
    assert_eq!(time_until_reboot_check(13 * HOUR, 0, &noon), Ok((23 * HOUR) as u64));
    // Exactly at the time of the check, the next one is a day away.
    assert_eq!(time_until_reboot_check(12 * HOUR, 0, &noon), Ok(NANOS_PER_DAY as u64));
    assert_eq!(
        time_until_reboot_check(12 * HOUR + 1, 0, &noon),
        Ok((NANOS_PER_DAY - 1) as u64)
    );
    let midnight = TimeValue { hours: 0, minutes: 0 };
    assert_eq!(time_until_reboot_check(0, 0, &midnight), Ok(NANOS_PER_DAY as u64));
}

#[test]
fn time_until_the_check_in_local_time() {
    let noon = TimeValue { hours: 12, minutes: 0 };
    // 00:00 UTC is 02:00 at +2: noon is ten hours away.
    assert_eq!(time_until_reboot_check(0, 2, &noon), Ok((10 * HOUR) as u64));
    // 00:00 UTC is 19:00 of the day before at -5: noon is seventeen hours away.
    assert_eq!(time_until_reboot_check(0, -5, &noon), Ok((17 * HOUR) as u64));
    // 11:00 UTC is 13:00 at +2: noon was an hour ago.
    assert_eq!(time_until_reboot_check(11 * HOUR, 2, &noon), Ok((23 * HOUR) as u64));
    // Before the epoch.
    assert_eq!(time_until_reboot_check(-HOUR, 0, &noon), Ok((13 * HOUR) as u64));
    assert_eq!(time_until_reboot_check(-13 * HOUR, 0, &noon), Ok(HOUR as u64));
}

#[test]
fn time_of_day_and_offset_must_be_in_range() {
    let noon = TimeValue { hours: 12, minutes: 0 };
    assert_eq!(
        time_until_reboot_check(0, 0, &TimeValue { hours: 24, minutes: 0 }),
        Err(RebootError::TimeError)
    );
    assert_eq!(
        time_until_reboot_check(0, 0, &TimeValue { hours: 0, minutes: 60 }),
        Err(RebootError::TimeError)
    );
    assert_eq!(time_until_reboot_check(0, 26, &noon), Err(RebootError::TimeError));
    assert_eq!(time_until_reboot_check(0, -26, &noon), Err(RebootError::TimeError));
    assert!(time_until_reboot_check(0, 25, &noon).is_ok());
    assert!(time_until_reboot_check(0, -25, &noon).is_ok());
    assert_eq!(
        time_until_reboot_check(CLOCK_LIMIT, 0, &noon),
        Err(RebootError::TimeError)
    );
    assert_eq!(
        time_until_reboot_check(-CLOCK_LIMIT - 1, 0, &noon),
        Err(RebootError::TimeError)
    );
    assert!(time_until_reboot_check(CLOCK_LIMIT - NANOS_PER_DAY, 25, &noon).is_ok());
    assert!(time_until_reboot_check(-CLOCK_LIMIT, -25, &noon).is_ok());
}

#[test]
fn the_loop_rests_after_a_daily_check() {
    assert_eq!(CHECK_COOLDOWN_SECONDS, 120);
    let mut schedule = RebootSchedule::new();
    assert_eq!(schedule.timer(), RebootTimer::DailyCheck);
    assert_eq!(schedule.wake(RebootWake::TimerElapsed), RebootTask::CheckReboot);
    assert_eq!(schedule.timer(), RebootTimer::Cooldown);
    // Messages are served during the rest, and do not end it.
    assert_eq!(
        schedule.wake(RebootWake::Message(RebootManagerMessage::RebootNow)),
        RebootTask::RebootNow
    );
    assert_eq!(schedule.timer(), RebootTimer::Cooldown);
    assert_eq!(schedule.wake(RebootWake::TimerElapsed), RebootTask::Wait);
    assert_eq!(schedule.timer(), RebootTimer::DailyCheck);
}

#[test]
fn a_failed_timer_also_leads_to_a_rest() {
    let mut schedule = RebootSchedule::new();
    assert_eq!(schedule.wake(RebootWake::TimerFailed), RebootTask::Wait);
    assert_eq!(schedule.timer(), RebootTimer::Cooldown);
}

#[test]
fn quit_and_a_closed_channel_end_the_loop() {
    let mut schedule = RebootSchedule::new();
    assert_eq!(schedule.wake(RebootWake::Quit), RebootTask::Exit);
    assert_eq!(schedule.wake(RebootWake::ChannelClosed), RebootTask::Exit);
    assert_eq!(schedule.timer(), RebootTimer::DailyCheck);
}
