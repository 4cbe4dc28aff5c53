//! Handle automatic reboots
//!
//! The reboot manager wakes once a day at the configured time of day and
//! reboots the node if a reboot is pending. It also reboots when the update
//! manager tells it to. Before any reboot of a node whose storage was opened
//! with a key from the key provider, it makes sure that the provider still
//! hands the key out: a node that cannot open its storage after the reboot is
//! not rebooted.

use crate::config::TimeValue;
use crate::mount::MountMode;
use crate::operation::{Command, CommandView, Operation, OperationView};
use crate::step::{ExitCode, Outcome, OutcomeView};
use crate::text::{chars_of, parse_i8, spec_parse_i8, string_of};
use vstd::prelude::*;

verus! {

/// If this file exists reboot system at some point. Works at least on Ubuntu.
pub const REBOOT_REQUIRED_PATH: &'static str = "/var/run/reboot-required";

/// How long the manager rests after a daily check, in seconds.
pub const CHECK_COOLDOWN_SECONDS: u64 = 120;

/// The nanoseconds of one second, one hour and one day.
pub const NANOS_PER_SECOND: i128 = 1_000_000_000;

pub const NANOS_PER_HOUR: i128 = 3_600_000_000_000;

pub const NANOS_PER_DAY: i128 = 86_400_000_000_000;

/// The instants, in nanoseconds since the Unix epoch, that the scheduler
/// works with: from about the year -5950 to about the year 9890.
pub const CLOCK_LIMIT: i128 = 250_000_000_000_000_000_000;

#[derive(Clone, Copy, Debug, PartialEq, Eq)]
pub enum RebootError {
    RebootManagerNotAvailable,
    TimeError,
    ConfigError,
    /// The command ended unsuccessfully, with this exit code.
    CommandFailed(ExitCode),
    ProcessStartFailed,
    ProcessWaitFailed,
    InvalidOutput,
    GetKeyFailed,
}

impl RebootError {
    /// The text of the error.
    pub fn message(&self) -> (r: &'static str)
        ensures
            r@ == (match *self {
                RebootError::RebootManagerNotAvailable => "Reboot manager not available"@,
                RebootError::TimeError => "Time related error"@,
                RebootError::ConfigError => "Config related error"@,
                RebootError::CommandFailed(_) => "Command failed with exit status"@,
                RebootError::ProcessStartFailed => "Process start failed"@,
                RebootError::ProcessWaitFailed => "Process wait failed"@,
                RebootError::InvalidOutput => "Invalid output"@,
                RebootError::GetKeyFailed => "Getting encryption key failed"@,
            }),
    {
        match self {
            RebootError::RebootManagerNotAvailable => "Reboot manager not available",
            RebootError::TimeError => "Time related error",
            RebootError::ConfigError => "Config related error",
            RebootError::CommandFailed(_) => "Command failed with exit status",
            RebootError::ProcessStartFailed => "Process start failed",
            RebootError::ProcessWaitFailed => "Process wait failed",
            RebootError::InvalidOutput => "Invalid output",
            RebootError::GetKeyFailed => "Getting encryption key failed",
        }
    }
}

#[derive(Clone, Copy, Debug, PartialEq, Eq, Structural)]
pub enum RebootManagerMessage {
    RebootNow,
}

/// The latch that makes the next reboot check reboot. It is set when an
/// update was installed and stays set until the node reboots.
#[derive(Clone, Copy, Debug)]
pub struct RebootPending {
    pending: bool,
}

impl View for RebootPending {
    type V = bool;

    closed spec fn view(&self) -> bool {
        self.pending
    }
}

impl RebootPending {
    /// The latch of a process that has just started: not set.
    pub fn new() -> (r: RebootPending)
        ensures
            !r@,
    {
        RebootPending { pending: false }
    }

    /// Sets the latch.
    pub fn set(&mut self)
        ensures
            final(self)@,
    {
        self.pending = true;
    }

    /// Whether the latch is set.
    pub fn is_set(&self) -> (r: bool)
        ensures
            r == self@,
    {
        self.pending
    }
}

/// `s` without its leading occurrences of `c`.
pub open spec fn spec_strip_leading(s: Seq<char>, c: char) -> Seq<char>
    decreases s.len(),
{
    if s.len() > 0 && s[0] == c {
        spec_strip_leading(s.skip(1), c)
    } else {
        s
    }
}

/// The hours of the UTC offset that `date +%z` printed as `output`, a sign and
/// then hours and minutes in two digits each. The minutes are left out; a
/// sign other than `-` counts as `+`.
pub open spec fn spec_utc_offset_hours(output: Seq<char>) -> Result<i8, RebootError> {
    let negative = output.len() > 0 && output[0] == '-';
    let hours = if output.len() <= 1 {
        Seq::<char>::empty()
    } else if output.len() == 2 {
        output.subrange(1, 2)
    } else {
        output.subrange(1, 3)
    };
    let digits = spec_strip_leading(hours, '0');
    if hours.len() > 0 && digits.len() == 0 {
        Ok(0i8)
    } else {
        match spec_parse_i8(digits) {
            None => Err(RebootError::InvalidOutput),
            Some(value) => Ok(
                if negative {
                    (-value) as i8
                } else {
                    value
                },
            ),
        }
    }
}

proof fn lemma_short_number(s: Seq<char>)
    requires
        s.len() <= 2,
        spec_parse_i8(s) is Some,
    ensures
        -99 <= spec_parse_i8(s)->0 <= 99,
{
    let negative = s.len() > 0 && s[0] == '-';
    let digits = if s.len() > 0 && (s[0] == '+' || negative) {
        s.skip(1)
    } else {
        s
    };
    assert(digits.len() <= 2);
    reveal_with_fuel(crate::text::decimal_value, 3);
    if digits.len() == 2 {
        assert(digits.drop_last().len() == 1);
        assert(crate::text::is_digit(digits[0]));
        assert(crate::text::is_digit(digits[1]));
        assert(digits.drop_last().last() == digits[0]);
        assert(digits.drop_last().drop_last().len() == 0);
    } else if digits.len() == 1 {
        assert(crate::text::is_digit(digits[0]));
        assert(digits.drop_last().len() == 0);
    }
}

/// Reads the hours of the UTC offset from what `date +%z` printed.
pub fn utc_offset_hours(output: &str) -> (r: Result<i8, RebootError>)
    ensures
        r == spec_utc_offset_hours(output@),
{
    let chars = chars_of(output);
    let negative = chars.len() > 0 && chars[0] == '-';
    let end: usize = if chars.len() <= 1 {
        1
    } else if chars.len() == 2 {
        2
    } else {
        3
    };
    let ghost hours = if chars.len() <= 1 {
        Seq::<char>::empty()
    } else {
        chars@.subrange(1, end as int)
    };
    let mut from: usize = 1;
    while from < end && from < chars.len() && chars[from] == '0'
        invariant
            1 <= from <= end <= 3,
            chars.len() > 1 ==> end <= chars.len(),
            chars.len() <= 1 ==> end == 1,
            hours == (if chars.len() <= 1 {
                Seq::<char>::empty()
            } else {
                chars@.subrange(1, end as int)
            }),
            spec_strip_leading(hours, '0') == spec_strip_leading(
                if chars.len() <= 1 {
                    Seq::<char>::empty()
                } else {
                    chars@.subrange(from as int, end as int)
                },
                '0',
            ),
        decreases end - from,
    {
        proof {
            let rest = chars@.subrange(from as int, end as int);
            assert(rest[0] == '0');
            assert(rest.skip(1) == chars@.subrange(from + 1, end as int));
        }
        from = from + 1;
    }
    let mut digits: Vec<char> = Vec::new();
    let mut i: usize = from;
    while i < end && i < chars.len()
        invariant
            1 <= from <= i <= end <= 3,
            chars.len() > 1 ==> end <= chars.len(),
            chars.len() <= 1 ==> end == 1,
            i <= chars.len() || chars.len() <= 1,
            chars.len() > 1 ==> digits@ == chars@.subrange(from as int, i as int),
            chars.len() <= 1 ==> digits@.len() == 0,
        decreases end - i,
    {
        digits.push(chars[i]);
        proof {
            assert(chars@.subrange(from as int, i + 1) == chars@.subrange(
                from as int,
                i as int,
            ).push(chars@[i as int]));
        }
        i = i + 1;
    }
    proof {
        if chars.len() > 1 {
            let rest = chars@.subrange(from as int, end as int);
            assert(digits@ == rest);
            if rest.len() > 0 {
                assert(rest[0] != '0');
            }
            assert(spec_strip_leading(rest, '0') == rest);
        } else {
            assert(digits@ =~= Seq::<char>::empty());
            assert(spec_strip_leading(Seq::<char>::empty(), '0') == Seq::<char>::empty());
        }
        assert(digits@ == spec_strip_leading(hours, '0'));
    }
    if end > 1 && chars.len() > 1 && digits.len() == 0 {
        return Ok(0);
    }
    let text = string_of(&digits);
    match parse_i8(text.as_str()) {
        None => Err(RebootError::InvalidOutput),
        Some(value) => {
            proof {
                lemma_short_number(digits@);
            }
            if negative {
                Ok(-value)
            } else {
                Ok(value)
            }
        },
    }
}

/// The command that prints the UTC offset of local time.
pub fn utc_offset_command() -> (r: Command)
    ensures
        r@ == CommandView::plain("date"@, seq!["+%z"@]),
{
    let mut args: Vec<String> = Vec::new();
    args.push(String::from_str("+%z"));
    assert(crate::operation::texts(args@) =~= seq!["+%z"@]);
    Command::plain("date", args)
}

/// What the run of the command that prints the UTC offset came to.
pub open spec fn spec_utc_offset_of(outcome: OutcomeView) -> Result<i8, RebootError> {
    match outcome {
        OutcomeView::Text(output) => spec_utc_offset_hours(output),
        OutcomeView::Exited(code) => Err(RebootError::CommandFailed(code)),
        OutcomeView::Invalid => Err(RebootError::InvalidOutput),
        _ => Err(RebootError::ProcessWaitFailed),
    }
}

/// The hours of the UTC offset, read from the outcome of the command that
/// prints it.
pub fn utc_offset_of(outcome: &Outcome) -> (r: Result<i8, RebootError>)
    ensures
        r == spec_utc_offset_of(outcome@),
{
    match outcome {
        Outcome::Text(output) => utc_offset_hours(output.as_str()),
        Outcome::Exited(code) => Err(RebootError::CommandFailed(*code)),
        Outcome::Invalid => Err(RebootError::InvalidOutput),
        _ => Err(RebootError::ProcessWaitFailed),
    }
}

/// Whether the scheduler works with the instant `now`.
pub open spec fn on_clock(now: int) -> bool {
    -CLOCK_LIMIT <= now <= CLOCK_LIMIT
}

/// The nanoseconds from local midnight to the time of day `time`.
pub open spec fn nanos_of_day(time: TimeValue) -> int {
    (time.hours * 3600 + time.minutes * 60) * NANOS_PER_SECOND
}

/// The instant at which the local day of `now` has the time of day `time`,
/// where local time is UTC shifted by `offset_hours`.
pub open spec fn same_day_at(now: int, offset_hours: int, time: TimeValue) -> int {
    let local = now + offset_hours * NANOS_PER_HOUR;
    local - (local % (NANOS_PER_DAY as int)) + nanos_of_day(time) - offset_hours * NANOS_PER_HOUR
}

/// `Time::from_hms` with zero seconds accepts hours below 24 and minutes
/// below 60, and nothing else.
#[verifier::external_body]
fn is_time_of_day(hours: u8, minutes: u8) -> (r: bool)
    ensures
        r == (hours < 24 && minutes < 60),
{
    time::Time::from_hms(hours, minutes, 0).is_ok()
}

/// `UtcOffset::from_hms` with zero minutes and seconds accepts the hours from
/// -25 to 25, and nothing else.
#[verifier::external_body]
fn is_utc_offset(hours: i8) -> (r: bool)
    ensures
        r == (-25 <= hours <= 25),
{
    time::UtcOffset::from_hms(hours, 0, 0).is_ok()
}

/// `OffsetDateTime::replace_time` on the instant `now` seen at the offset
/// `offset_hours`: the instant of the same local day that has the given time
/// of day. Dates are those of the proleptic Gregorian calendar without leap
/// seconds, so every day has as many nanoseconds as the next.
#[verifier::external_body]
fn replace_local_time(now: i128, offset_hours: i8, hours: u8, minutes: u8) -> (r: i128)
    requires
        on_clock(now as int),
        -25 <= offset_hours <= 25,
        hours < 24,
        minutes < 60,
    ensures
        r == same_day_at(now as int, offset_hours as int, TimeValue { hours, minutes }),
{
    let offset = time::UtcOffset::from_hms(offset_hours, 0, 0).unwrap();
    let time_of_day = time::Time::from_hms(hours, minutes, 0).unwrap();
    let instant = time::OffsetDateTime::from_unix_timestamp_nanos(now).unwrap();
    instant.to_offset(offset).replace_time(time_of_day).unix_timestamp_nanos()
}

/// How long to sleep at `now` until local time next reads `time`: until
/// today's `time` if that is still to come, else until tomorrow's.
pub open spec fn spec_time_until_check(now: int, offset_hours: int, time: TimeValue) -> Result<
    int,
    RebootError,
> {
    if !(time.hours < 24 && time.minutes < 60) || !(-25 <= offset_hours <= 25) || !on_clock(now)
        || !on_clock(now + NANOS_PER_DAY) {
        Err(RebootError::TimeError)
    } else if same_day_at(now, offset_hours, time) > now {
        Ok(same_day_at(now, offset_hours, time) - now)
    } else {
        Ok(same_day_at(now + NANOS_PER_DAY, offset_hours, time) - now)
    }
}

/// The sleep never is empty and never longer than a day, and it ends when
/// local time reads `time`.
pub proof fn lemma_time_until_check(now: int, offset_hours: int, time: TimeValue)
    requires
        spec_time_until_check(now, offset_hours, time) is Ok,
    ensures
        0 < spec_time_until_check(now, offset_hours, time)->Ok_0 <= NANOS_PER_DAY,
        (now + spec_time_until_check(now, offset_hours, time)->Ok_0 + offset_hours
            * NANOS_PER_HOUR) % (NANOS_PER_DAY as int) == nanos_of_day(time),
{
    let day = NANOS_PER_DAY as int;
    let local = now + offset_hours * NANOS_PER_HOUR;
    let of_day = nanos_of_day(time);
    assert(0 <= of_day < day) by {
        assert(time.hours * 3600 + time.minutes * 60 <= 23 * 3600 + 59 * 60);
    }
    assert((local + day) % day == local % day);
    let wait = spec_time_until_check(now, offset_hours, time)->Ok_0;
    if same_day_at(now, offset_hours, time) > now {
        assert(wait == of_day - local % day);
        assert(local + wait == (local - local % day) + of_day);
    } else {
        assert(wait == day + of_day - local % day);
        assert(local + wait == (local - local % day) + day + of_day);
    }
    assert((local - local % day) % day == 0);
    assert((local + wait) % day == of_day) by {
        let base = local - local % day;
        assert(base % day == 0);
        if same_day_at(now, offset_hours, time) > now {
            assert((base + of_day) % day == of_day);
        } else {
            assert((base + day + of_day) % day == of_day);
        }
    }
}

/// How many nanoseconds to sleep until the next daily check. `now` is the
/// time in nanoseconds since the Unix epoch, and local time is UTC shifted by
/// `offset_hours`.
pub fn time_until_reboot_check(now: i128, offset_hours: i8, time: &TimeValue) -> (r: Result<
    u64,
    RebootError,
>)
    ensures
        r is Ok == spec_time_until_check(now as int, offset_hours as int, *time) is Ok,
        r is Ok ==> r->Ok_0 == spec_time_until_check(now as int, offset_hours as int, *time)->Ok_0,
        r is Err ==> r->Err_0 == RebootError::TimeError,
{
    if !is_time_of_day(time.hours, time.minutes) || !is_utc_offset(offset_hours) {
        return Err(RebootError::TimeError);
    }
    if now < -CLOCK_LIMIT || now > CLOCK_LIMIT - NANOS_PER_DAY {
        return Err(RebootError::TimeError);
    }
    proof {
        lemma_time_until_check(now as int, offset_hours as int, *time);
    }
    let today = replace_local_time(now, offset_hours, time.hours, time.minutes);
    if today > now {
        let wait = today - now;
        Ok(wait as u64)
    } else {
        let tomorrow = now + NANOS_PER_DAY;
        let target = replace_local_time(tomorrow, offset_hours, time.hours, time.minutes);
        let wait = target - now;
        Ok(wait as u64)
    }
}

/// What woke the reboot manager.
#[derive(Clone, Copy, Debug, PartialEq, Eq, Structural)]
pub enum RebootTrigger {
    /// The daily check is due.
    ScheduledCheck,
    /// The update manager asked for a reboot.
    RebootNow,
}

/// How a look at the need for a reboot ended.
#[derive(Clone, Copy, Debug, PartialEq, Eq)]
pub struct RebootReport {
    /// Whether a reboot was called for.
    pub needed: bool,
    /// How the reboot went, where one was called for.
    pub result: Result<(), RebootError>,
}

/// What the reboot manager asks its caller to do.
#[derive(Clone, Copy, Debug, PartialEq, Eq)]
pub enum RebootAction {
    /// Say whether the file that calls for a reboot exists.
    CheckRebootRequired,
    /// Ask the key provider for this node's key.
    CheckKeyAvailability,
    /// Reboot the node.
    Reboot,
    /// Nothing more to do: this is how it ended.
    Finish(RebootReport),
}

/// What a reboot manager holds while it handles one trigger.
pub struct RebootManagerView {
    /// The action whose outcome the manager waits for.
    pub awaiting: RebootAction,
    /// The reboot latch as it was when the manager woke.
    pub pending: bool,
    /// How the storage was opened.
    pub mode: MountMode,
    /// The key provider handed the key out when asked just now.
    pub key_available: bool,
}

impl RebootManagerView {
    /// The first step of a reboot: with storage that was opened with the
    /// remote key, a look at whether the key can still be had.
    pub open spec fn reboot_entry(mode: MountMode) -> RebootAction {
        if mode == MountMode::MountedWithRemoteKey {
            RebootAction::CheckKeyAvailability
        } else {
            RebootAction::Reboot
        }
    }

    /// The manager that starts on `trigger`.
    pub open spec fn started(trigger: RebootTrigger, pending: bool, mode: MountMode) -> RebootManagerView {
        RebootManagerView {
            awaiting: match trigger {
                RebootTrigger::ScheduledCheck => RebootAction::CheckRebootRequired,
                RebootTrigger::RebootNow => Self::reboot_entry(mode),
            },
            pending,
            mode,
            key_available: false,
        }
    }

    /// The storage was opened with the remote key, so a reboot waits for the
    /// key provider's answer.
    pub open spec fn interlocked(self) -> bool {
        self.mode == MountMode::MountedWithRemoteKey
    }

    /// A reboot is only asked for once the interlock is passed.
    pub open spec fn wf(self) -> bool {
        self.awaiting == RebootAction::Reboot && self.interlocked() ==> self.key_available
    }

    /// Whether `outcome` is an answer to the action that the manager waits for.
    pub open spec fn answers(self, outcome: OutcomeView) -> bool {
        match self.awaiting {
            RebootAction::CheckRebootRequired => outcome.of_check(),
            RebootAction::CheckKeyAvailability => outcome.of_text_fetch(),
            RebootAction::Reboot => outcome.of_process(),
            RebootAction::Finish(_) => false,
        }
    }

    /// The manager after it was told `outcome`; the action it asks for next is
    /// the one it then waits for.
    pub open spec fn next(self, outcome: OutcomeView) -> RebootManagerView {
        match self.awaiting {
            RebootAction::CheckRebootRequired => RebootManagerView {
                awaiting: if outcome == OutcomeView::Exists(true) || self.pending {
                    Self::reboot_entry(self.mode)
                } else {
                    RebootAction::Finish(RebootReport { needed: false, result: Ok(()) })
                },
                ..self
            },
            RebootAction::CheckKeyAvailability => if outcome is Text {
                RebootManagerView { awaiting: RebootAction::Reboot, key_available: true, ..self }
            } else {
                RebootManagerView {
                    awaiting: RebootAction::Finish(
                        RebootReport { needed: true, result: Err(RebootError::GetKeyFailed) },
                    ),
                    ..self
                }
            },
            RebootAction::Reboot => RebootManagerView {
                awaiting: RebootAction::Finish(
                    RebootReport {
                        needed: true,
                        result: match outcome {
                            OutcomeView::Succeeded => Ok(()),
                            OutcomeView::Exited(code) => Err(RebootError::CommandFailed(code)),
                            _ => Err(RebootError::ProcessStartFailed),
                        },
                    },
                ),
                ..self
            },
            RebootAction::Finish(_) => self,
        }
    }

    /// What the action that the manager waits for means.
    pub open spec fn operation(self) -> Option<OperationView> {
        match self.awaiting {
            RebootAction::CheckRebootRequired => Some(
                OperationView::PathExists { path: REBOOT_REQUIRED_PATH@ },
            ),
            RebootAction::CheckKeyAvailability => Some(OperationView::FetchEncryptionKey),
            RebootAction::Reboot => Some(
                OperationView::Run { command: CommandView::plain("sudo"@, seq!["reboot"@]) },
            ),
            RebootAction::Finish(_) => None,
        }
    }
}

/// Decides, step by step, whether and how the node is rebooted.
pub struct RebootManager {
    awaiting: RebootAction,
    pending: bool,
    mode: MountMode,
    key_available: bool,
}

impl View for RebootManager {
    type V = RebootManagerView;

    closed spec fn view(&self) -> RebootManagerView {
        RebootManagerView {
            awaiting: self.awaiting,
            pending: self.pending,
            mode: self.mode,
            key_available: self.key_available,
        }
    }
}

fn reboot_entry(mode: MountMode) -> (r: RebootAction)
    ensures
        r == RebootManagerView::reboot_entry(mode),
{
    match mode {
        MountMode::MountedWithRemoteKey => RebootAction::CheckKeyAvailability,
        _ => RebootAction::Reboot,
    }
}

impl RebootManager {
    /// Starts the daily check: the node is rebooted if the system calls for
    /// it or if the latch `pending` is set.
    pub fn reboot_if_needed(pending: &RebootPending, mode: MountMode) -> (r: RebootManager)
        ensures
            r@ == RebootManagerView::started(RebootTrigger::ScheduledCheck, pending@, mode),
            r@.wf(),
    {
        RebootManager {
            awaiting: RebootAction::CheckRebootRequired,
            pending: pending.is_set(),
            mode,
            key_available: false,
        }
    }

    /// Starts the handling of a message from the update manager.
    pub fn handle_message(message: RebootManagerMessage, pending: &RebootPending, mode: MountMode) -> (r:
        RebootManager)
        ensures
            r@ == RebootManagerView::started(RebootTrigger::RebootNow, pending@, mode),
            r@.wf(),
    {
        match message {
            RebootManagerMessage::RebootNow => RebootManager {
                awaiting: reboot_entry(mode),
                pending: pending.is_set(),
                mode,
                key_available: false,
            },
        }
    }

    /// The action whose outcome the manager waits for.
    pub fn awaiting(&self) -> (r: RebootAction)
        ensures
            r == self@.awaiting,
    {
        self.awaiting
    }

    /// Whether `outcome` is an answer to the action that the manager waits for.
    pub fn accepts(&self, outcome: &Outcome) -> (r: bool)
        ensures
            r == self@.answers(outcome@),
    {
        match self.awaiting {
            RebootAction::CheckRebootRequired => outcome.of_check(),
            RebootAction::CheckKeyAvailability => outcome.of_text_fetch(),
            RebootAction::Reboot => outcome.of_process(),
            RebootAction::Finish(_) => false,
        }
    }

    /// Takes the outcome of the action asked for last and answers with the
    /// next action.
    pub fn step(&mut self, outcome: Outcome) -> (action: RebootAction)
        requires
            old(self)@.wf(),
            old(self)@.answers(outcome@),
        ensures
            final(self)@ == old(self)@.next(outcome@),
            action == final(self)@.awaiting,
            final(self)@.wf(),
    {
        let action = match self.awaiting {
            RebootAction::CheckRebootRequired => {
                let required = match outcome {
                    Outcome::Exists(true) => true,
                    _ => false,
                };
                if required || self.pending {
                    reboot_entry(self.mode)
                } else {
                    RebootAction::Finish(RebootReport { needed: false, result: Ok(()) })
                }
            },
            RebootAction::CheckKeyAvailability => match outcome {
                Outcome::Text(_) => {
                    self.key_available = true;
                    RebootAction::Reboot
                },
                _ => RebootAction::Finish(
                    RebootReport { needed: true, result: Err(RebootError::GetKeyFailed) },
                ),
            },
            RebootAction::Reboot => RebootAction::Finish(
                RebootReport {
                    needed: true,
                    result: match outcome {
                        Outcome::Succeeded => Ok(()),
                        Outcome::Exited(code) => Err(RebootError::CommandFailed(code)),
                        _ => Err(RebootError::ProcessStartFailed),
                    },
                },
            ),
            RebootAction::Finish(r) => RebootAction::Finish(r),
        };
        self.awaiting = action;
        action
    }

    /// The operation that carries out the action that the manager waits for.
    pub fn operation(&self) -> (r: Option<Operation>)
        ensures
            r is Some == self@.operation() is Some,
            r is Some ==> r->0@ == self@.operation()->0,
    {
        match self.awaiting {
            RebootAction::CheckRebootRequired => Some(
                Operation::PathExists { path: String::from_str(REBOOT_REQUIRED_PATH) },
            ),
            RebootAction::CheckKeyAvailability => Some(Operation::FetchEncryptionKey),
            RebootAction::Reboot => Some(Operation::Run { command: Command::sudo("reboot") }),
            RebootAction::Finish(_) => None,
        }
    }
}

/// The manager after the first `n` of `outcomes`.
pub open spec fn run(m: RebootManagerView, outcomes: Seq<OutcomeView>, n: int) -> RebootManagerView
    decreases n,
{
    if n <= 0 {
        m
    } else {
        run(m, outcomes, n - 1).next(outcomes[n - 1])
    }
}

/// Whether each of the first `n` of `outcomes` answers the action that was
/// asked for.
pub open spec fn answered(m: RebootManagerView, outcomes: Seq<OutcomeView>, n: int) -> bool
    decreases n,
{
    n <= 0 || (answered(m, outcomes, n - 1) && run(m, outcomes, n - 1).answers(outcomes[n - 1]))
}

/// Whether the key provider handed the key out in one of the first `n` steps.
pub open spec fn key_was_handed_out(m: RebootManagerView, outcomes: Seq<OutcomeView>, n: int) -> bool {
    exists|k: int|
        0 <= k < n && (#[trigger] run(m, outcomes, k)).awaiting
            == RebootAction::CheckKeyAvailability && outcomes[k] is Text
}

/// The safety interlock. Where the storage was opened with the remote key,
/// the node is only rebooted after the key provider handed the key out: a
/// provider that cannot be reached ends the attempt without a reboot, and the
/// latch is left alone for the next attempt. Any other mount mode passes.
pub proof fn lemma_reboot_waits_for_key(
    trigger: RebootTrigger,
    pending: bool,
    mode: MountMode,
    outcomes: Seq<OutcomeView>,
    n: int,
)
    requires
        0 <= n,
        answered(RebootManagerView::started(trigger, pending, mode), outcomes, n),
        run(RebootManagerView::started(trigger, pending, mode), outcomes, n).awaiting
            == RebootAction::Reboot,
    ensures
        mode == MountMode::MountedWithRemoteKey ==> key_was_handed_out(
            RebootManagerView::started(trigger, pending, mode),
            outcomes,
            n,
        ),
        run(RebootManagerView::started(trigger, pending, mode), outcomes, n).pending == pending,
{
    let m = RebootManagerView::started(trigger, pending, mode);
    lemma_run_shape(m, outcomes, n);
    if mode == MountMode::MountedWithRemoteKey {
        assert(n >= 1);
        let before = run(m, outcomes, n - 1);
        lemma_run_shape(m, outcomes, n - 1);
        assert(before.awaiting == RebootAction::CheckKeyAvailability);
        assert(outcomes[n - 1] is Text);
    }
}

proof fn lemma_run_shape(m: RebootManagerView, outcomes: Seq<OutcomeView>, n: int)
    requires
        0 <= n,
        answered(m, outcomes, n),
    ensures
        run(m, outcomes, n).pending == m.pending,
        run(m, outcomes, n).mode == m.mode,
    decreases n,
{
    if n > 0 {
        lemma_run_shape(m, outcomes, n - 1);
    }
}

/// The daily check reboots exactly when a reboot is pending: when the system
/// calls for one or the latch is set. With neither, it ends at once and
/// reports that no reboot was needed.
pub proof fn lemma_daily_check_reboots_when_pending(pending: bool, mode: MountMode, required: bool)
    ensures
        ({
            let m = RebootManagerView::started(RebootTrigger::ScheduledCheck, pending, mode);
            let after = m.next(OutcomeView::Exists(required));
            &&& m.awaiting == RebootAction::CheckRebootRequired
            &&& (required || pending) ==> after.awaiting == RebootManagerView::reboot_entry(mode)
            &&& !(required || pending) ==> after.awaiting == RebootAction::Finish(
                RebootReport { needed: false, result: Ok(()) },
            )
        }),
{
}

/// A request to reboot now that finds the latch set does what the daily check
/// does once it has found that a reboot is pending. The update manager sets
/// the latch before it asks for the reboot.
pub proof fn lemma_reboot_now_is_a_pending_reboot(mode: MountMode, required: bool)
    ensures
        RebootManagerView::started(RebootTrigger::RebootNow, true, mode)
            == RebootManagerView::started(RebootTrigger::ScheduledCheck, true, mode).next(
            OutcomeView::Exists(required),
        ),
{
}

/// What the reboot manager's loop waits for besides messages and the quit
/// signal.
#[derive(Clone, Copy, Debug, PartialEq, Eq, Structural)]
pub enum RebootTimer {
    /// The end of the rest after a daily check.
    Cooldown,
    /// The time of day of the daily check.
    DailyCheck,
}

/// What happened while the reboot manager's loop waited.
#[derive(Clone, Copy, Debug, PartialEq, Eq, Structural)]
pub enum RebootWake {
    /// The timer that was armed ended.
    TimerElapsed,
    /// Arming the timer of the daily check failed.
    TimerFailed,
    /// A message arrived.
    Message(RebootManagerMessage),
    /// The last sender of messages is gone.
    ChannelClosed,
    /// The supervisor quits.
    Quit,
}

/// What the reboot manager's loop does about a wake.
#[derive(Clone, Copy, Debug, PartialEq, Eq, Structural)]
pub enum RebootTask {
    /// Keep waiting.
    Wait,
    /// Run the daily check.
    CheckReboot,
    /// Reboot on request.
    RebootNow,
    /// Leave the loop.
    Exit,
}

/// The loop of the reboot manager: it waits for the daily check, a message or
/// the quit signal, and rests after each daily check so that a check that is
/// due at once cannot spin.
#[derive(Clone, Copy, Debug, PartialEq, Eq, Structural)]
pub struct RebootSchedule {
    pub check_cooldown: bool,
}

impl RebootSchedule {
    /// The timer to arm while the loop waits.
    pub open spec fn spec_timer(self) -> RebootTimer {
        if self.check_cooldown {
            RebootTimer::Cooldown
        } else {
            RebootTimer::DailyCheck
        }
    }

    /// The loop after `wake`.
    pub open spec fn after(self, wake: RebootWake) -> RebootSchedule {
        match wake {
            RebootWake::TimerElapsed => RebootSchedule { check_cooldown: !self.check_cooldown },
            RebootWake::TimerFailed => RebootSchedule { check_cooldown: true },
            _ => self,
        }
    }

    /// What `wake` calls for.
    pub open spec fn task(self, wake: RebootWake) -> RebootTask {
        match wake {
            RebootWake::TimerElapsed => if self.check_cooldown {
                RebootTask::Wait
            } else {
                RebootTask::CheckReboot
            },
            RebootWake::TimerFailed => RebootTask::Wait,
            RebootWake::Message(RebootManagerMessage::RebootNow) => RebootTask::RebootNow,
            RebootWake::ChannelClosed | RebootWake::Quit => RebootTask::Exit,
        }
    }

    /// The loop as it starts: the daily check is armed.
    pub fn new() -> (r: RebootSchedule)
        ensures
            !r.check_cooldown,
    {
        RebootSchedule { check_cooldown: false }
    }

    /// The timer to arm while the loop waits.
    pub fn timer(&self) -> (r: RebootTimer)
        ensures
            r == self.spec_timer(),
    {
        if self.check_cooldown {
            RebootTimer::Cooldown
        } else {
            RebootTimer::DailyCheck
        }
    }

    /// Takes what woke the loop and says what to do about it.
    pub fn wake(&mut self, wake: RebootWake) -> (r: RebootTask)
        ensures
            *final(self) == old(self).after(wake),
            r == old(self).task(wake),
    {
        match wake {
            RebootWake::TimerElapsed => {
                if self.check_cooldown {
                    self.check_cooldown = false;
                    RebootTask::Wait
                } else {
                    self.check_cooldown = true;
                    RebootTask::CheckReboot
                }
            },
            RebootWake::TimerFailed => {
                self.check_cooldown = true;
                RebootTask::Wait
            },
            RebootWake::Message(RebootManagerMessage::RebootNow) => RebootTask::RebootNow,
            RebootWake::ChannelClosed | RebootWake::Quit => RebootTask::Exit,
        }
    }
}

/// After a daily check the loop rests: the next thing it arms is the
/// cooldown, and no further daily check runs before the cooldown has ended.
pub proof fn lemma_rest_after_daily_check(schedule: RebootSchedule, wake: RebootWake)
    requires
        schedule.task(wake) == RebootTask::CheckReboot,
    ensures
        schedule.after(wake).spec_timer() == RebootTimer::Cooldown,
        forall|next: RebootWake| #[trigger]
            schedule.after(wake).task(next) != RebootTask::CheckReboot,
{
}

} // verus!
