//! Watching a running session: transfer statistics, stalls, and what the user asks for.

use vstd::prelude::*;
use crate::config::{action_name, Action};
use crate::connect::{elapsed, elapsed_since};
use crate::outside::{duration_text, human_duration, size_reads, size_text};
use crate::text::{align_right, decimal, right_aligned};

verus! {

/// How long the monitor pauses between two looks, in milliseconds.
pub const MONITOR_PAUSE_MS: u64 = 100;

/// The width of a size in a line of statistics.
pub const SIZE_WIDTH: usize = 9;

/// The state of the monitor. Times are in nanoseconds.
#[derive(Debug, Clone, Copy, PartialEq, Eq, Structural)]
pub struct TransferMonitor {
    /// How often to report, if at all.
    pub stats_interval: Option<u128>,
    /// How long a direction may be silent.
    pub read_timeout: u128,
    /// The bytes written to the car and to the phone at the last report.
    pub usb_bytes_out_last: usize,
    pub tcp_bytes_out_last: usize,
    /// The bytes written to the car and to the phone at the last look for a stall.
    pub stall_usb_bytes_last: usize,
    pub stall_tcp_bytes_last: usize,
    /// When the last report was.
    pub report_time: u128,
    /// When the last look for a stall was.
    pub stall_check: u128,
}

/// What a report says: bytes since the last report and in total, to the car and to the phone,
/// and the time since the last report in nanoseconds.
#[derive(Debug, Clone, Copy, PartialEq, Eq, Structural)]
pub struct TransferReport {
    pub usb_transferred_last: usize,
    pub usb_transferred_total: usize,
    pub tcp_transferred_last: usize,
    pub tcp_transferred_total: usize,
    pub elapsed: u128,
}

/// What one look at the counters found.
#[derive(Debug, Clone, Copy, PartialEq, Eq, Structural)]
pub struct Tick {
    /// What to report, if a report is due.
    pub report: Option<TransferReport>,
    /// Whether the transfer has stalled, which ends the session.
    pub stalled: bool,
}

/// One reading of the counters, and when it was made.
pub struct Sample {
    pub usb: usize,
    pub tcp: usize,
    pub now: u128,
}

impl TransferMonitor {
    /// A monitor that begins at `now`, when nothing has been transferred.
    pub fn new(stats_interval: Option<u128>, read_timeout: u128, now: u128) -> (m: TransferMonitor)
        ensures
            m == fresh_monitor(stats_interval, read_timeout, now),
    {
        TransferMonitor {
            stats_interval,
            read_timeout,
            usb_bytes_out_last: 0,
            tcp_bytes_out_last: 0,
            stall_usb_bytes_last: 0,
            stall_tcp_bytes_last: 0,
            report_time: now,
            stall_check: now,
        }
    }

    /// Whether a reading is not behind the earlier ones.
    pub open spec fn follows(&self, usb: usize, tcp: usize) -> bool {
        &&& self.usb_bytes_out_last <= usb
        &&& self.tcp_bytes_out_last <= tcp
        &&& self.stall_usb_bytes_last <= usb
        &&& self.stall_tcp_bytes_last <= tcp
    }

    /// Whether a report is due.
    pub open spec fn report_due(&self, now: u128) -> bool {
        self.stats_interval matches Some(d) && elapsed(self.report_time, now) > d
    }

    /// Whether a look for a stall is due.
    pub open spec fn check_due(&self, now: u128) -> bool {
        elapsed(self.stall_check, now) > self.read_timeout
    }

    /// Whether a direction has carried nothing since the last look for a stall.
    pub open spec fn silent(&self, usb: usize, tcp: usize) -> bool {
        usb == self.stall_usb_bytes_last || tcp == self.stall_tcp_bytes_last
    }

    /// What a look at the counters finds.
    pub open spec fn tick_of(&self, usb: usize, tcp: usize, now: u128) -> Tick {
        Tick {
            report: if self.report_due(now) {
                Some(
                    TransferReport {
                        usb_transferred_last: (usb - self.usb_bytes_out_last) as usize,
                        usb_transferred_total: usb,
                        tcp_transferred_last: (tcp - self.tcp_bytes_out_last) as usize,
                        tcp_transferred_total: tcp,
                        elapsed: elapsed(self.report_time, now) as u128,
                    },
                )
            } else {
                None
            },
            stalled: self.check_due(now) && self.silent(usb, tcp),
        }
    }

    /// The monitor after a look at the counters.
    pub open spec fn looked(&self, usb: usize, tcp: usize, now: u128) -> TransferMonitor {
        let report = self.report_due(now);
        let check = self.check_due(now) && !self.silent(usb, tcp);
        TransferMonitor {
            stats_interval: self.stats_interval,
            read_timeout: self.read_timeout,
            usb_bytes_out_last: if report { usb } else { self.usb_bytes_out_last },
            tcp_bytes_out_last: if report { tcp } else { self.tcp_bytes_out_last },
            stall_usb_bytes_last: if check { usb } else { self.stall_usb_bytes_last },
            stall_tcp_bytes_last: if check { tcp } else { self.stall_tcp_bytes_last },
            report_time: if report { now } else { self.report_time },
            stall_check: if check { now } else { self.stall_check },
        }
    }

    /// Looks at the counters: `usb` bytes have been written to the car and `tcp` to the phone.
    pub fn transfer_monitor(&mut self, usb: usize, tcp: usize, now: u128) -> (tick: Tick)
        requires
            old(self).follows(usb, tcp),
        ensures
            tick == old(self).tick_of(usb, tcp, now),
            *final(self) == old(self).looked(usb, tcp, now),
            final(self).follows(usb, tcp),
    {
        let since: u128 = elapsed_since(self.report_time, now);
        let due: bool = match self.stats_interval {
            Some(d) => since > d,
            None => false,
        };
        let report: Option<TransferReport> = if due {
            let r = TransferReport {
                usb_transferred_last: usb - self.usb_bytes_out_last,
                usb_transferred_total: usb,
                tcp_transferred_last: tcp - self.tcp_bytes_out_last,
                tcp_transferred_total: tcp,
                elapsed: since,
            };
            self.report_time = now;
            self.usb_bytes_out_last = usb;
            self.tcp_bytes_out_last = tcp;
            Some(r)
        } else {
            None
        };
        let mut stalled: bool = false;
        if elapsed_since(self.stall_check, now) > self.read_timeout {
            if usb - self.stall_usb_bytes_last == 0 || tcp - self.stall_tcp_bytes_last == 0 {
                stalled = true;
            } else {
                self.stall_check = now;
                self.stall_usb_bytes_last = usb;
                self.stall_tcp_bytes_last = tcp;
            }
        }
        Tick { report, stalled }
    }
}

/// A monitor that begins at `now`, when nothing has been transferred.
pub open spec fn fresh_monitor(
    stats_interval: Option<u128>,
    read_timeout: u128,
    now: u128,
) -> TransferMonitor {
    TransferMonitor {
        stats_interval,
        read_timeout,
        usb_bytes_out_last: 0,
        tcp_bytes_out_last: 0,
        stall_usb_bytes_last: 0,
        stall_tcp_bytes_last: 0,
        report_time: now,
        stall_check: now,
    }
}

/// A monitor after it has looked at all of `samples`.
pub open spec fn monitor_after(m: TransferMonitor, samples: Seq<Sample>) -> TransferMonitor
    decreases samples.len(),
{
    if samples.len() == 0 {
        m
    } else {
        let s = samples.last();
        monitor_after(m, samples.drop_last()).looked(s.usb, s.tcp, s.now)
    }
}

/// The reading before the session, when nothing had been transferred.
pub open spec fn first_reading(start: u128) -> Sample {
    Sample { usb: 0, tcp: 0, now: start }
}

/// Whether the monitor, at its last look for a stall, made the reading `s`.
pub open spec fn checked_at(m: TransferMonitor, s: Sample) -> bool {
    m.stall_usb_bytes_last == s.usb && m.stall_tcp_bytes_last == s.tcp && m.stall_check == s.now
}

/// The last look for a stall was made at one of the samples, or before the first of them.
pub proof fn law_monitor_remembers_a_reading(
    stats_interval: Option<u128>,
    read_timeout: u128,
    start: u128,
    samples: Seq<Sample>,
)
    ensures
        ({
            let m = monitor_after(fresh_monitor(stats_interval, read_timeout, start), samples);
            checked_at(m, first_reading(start)) || exists|i: int|
                0 <= i < samples.len() && checked_at(m, #[trigger] samples[i])
        }),
    decreases samples.len(),
{
    if samples.len() > 0 {
        law_monitor_remembers_a_reading(stats_interval, read_timeout, start, samples.drop_last());
        let m = monitor_after(
            fresh_monitor(stats_interval, read_timeout, start),
            samples.drop_last(),
        );
    }
}

/// Whether, between the readings `a` and `b`, more than `limit` nanoseconds passed in which one
/// of the directions carried nothing.
pub open spec fn silence_between(a: Sample, b: Sample, limit: u128) -> bool {
    elapsed(a.now, b.now) > limit && (a.usb == b.usb || a.tcp == b.tcp)
}

/// A stall is reported only if one direction has carried nothing for longer than the limit.
pub proof fn law_stall_means_silence(
    stats_interval: Option<u128>,
    read_timeout: u128,
    start: u128,
    samples: Seq<Sample>,
    s: Sample,
)
    requires
        monitor_after(fresh_monitor(stats_interval, read_timeout, start), samples).tick_of(
            s.usb,
            s.tcp,
            s.now,
        ).stalled,
    ensures
        silence_between(first_reading(start), s, read_timeout) || exists|i: int|
            0 <= i < samples.len() && silence_between(#[trigger] samples[i], s, read_timeout),
{
    law_monitor_remembers_a_reading(stats_interval, read_timeout, start, samples);
    lemma_settings_stay(stats_interval, read_timeout, start, samples);
    let m = monitor_after(fresh_monitor(stats_interval, read_timeout, start), samples);
    if !checked_at(m, first_reading(start)) {
        let i = choose|i: int| 0 <= i < samples.len() && checked_at(m, #[trigger] samples[i]);
    }
}

proof fn lemma_settings_stay(
    stats_interval: Option<u128>,
    read_timeout: u128,
    start: u128,
    samples: Seq<Sample>,
)
    ensures
        ({
            let m = monitor_after(fresh_monitor(stats_interval, read_timeout, start), samples);
            m.read_timeout == read_timeout && m.stats_interval == stats_interval
        }),
    decreases samples.len(),
{
    if samples.len() > 0 {
        lemma_settings_stay(stats_interval, read_timeout, start, samples.drop_last());
    }
}

/// Without an interval no report is ever made.
pub proof fn law_no_interval_no_report(
    read_timeout: u128,
    start: u128,
    samples: Seq<Sample>,
    s: Sample,
)
    ensures
        monitor_after(fresh_monitor(None, read_timeout, start), samples).tick_of(
            s.usb,
            s.tcp,
            s.now,
        ).report is None,
{
    lemma_settings_stay(None, read_timeout, start, samples);
}

/// Why a session ends when its transfer has stalled.
pub const STALLED: &'static str = "unexpected transfer stall";

/// What is in front of the name of the action that ends a session.
pub const ACTION_REQUEST: &'static str = "action request: ";

/// How a session is ended.
#[derive(Debug, Clone)]
pub struct Ending {
    /// Why the session ends.
    pub message: String,
    /// Whether what the user asks for is done with by ending the session.
    pub clear: bool,
}

/// Whether, and how, a look at the counters and what the user asks for end the session. A stall
/// comes first, and then what the user asks for stays pending. To reconnect is done with by ending
/// the session; everything else stays pending too.
pub fn session_ending(tick: &Tick, action: Option<Action>) -> (ending: Option<Ending>)
    ensures
        ending is Some <==> tick.stalled || action is Some,
        tick.stalled ==> (ending matches Some(e) && e.message@ == STALLED@ && !e.clear),
        !tick.stalled ==> (action matches Some(a) ==> (ending matches Some(e) && e.message@
            == ACTION_REQUEST@ + action_name(a) && (e.clear <==> a == Action::Reconnect))),
{
    if tick.stalled {
        return Some(Ending { message: STALLED.to_owned(), clear: false });
    }
    match action {
        Some(a) => {
            let mut message: String = ACTION_REQUEST.to_owned();
            message.append(a.name());
            Some(Ending { message, clear: a == Action::Reconnect })
        },
        None => None,
    }
}

/// How often statistics are shown, in words.
pub fn stats_interval_text(interval_secs: Option<u64>) -> (s: String)
    ensures
        s@ == match interval_secs {
            Some(secs) => human_duration(secs, 0),
            None => "disabled"@,
        },
{
    match interval_secs {
        Some(secs) => duration_text(secs, 0),
        None => "disabled".to_owned(),
    }
}

/// A length of time in words, from its whole seconds and the nanoseconds beyond them.
pub fn session_time_text(secs: u64, nanos: u32) -> (s: String)
    requires
        nanos < 1_000_000_000,
    ensures
        s@ == human_duration(secs, nanos),
{
    duration_text(secs, nanos)
}

/// One direction of a line of statistics: what was transferred since the last report, how fast,
/// and in total, each as a text.
pub open spec fn direction(last: Seq<char>, speed: Seq<char>, total: Seq<char>) -> Seq<char> {
    right_aligned(last, SIZE_WIDTH as nat) + " ("@ + right_aligned(speed, SIZE_WIDTH as nat)
        + "/s), "@ + right_aligned(total, SIZE_WIDTH as nat) + " total"@
}

/// One direction of a line of statistics.
pub fn transfer_line(last: &str, speed: &str, total: &str) -> (s: String)
    ensures
        s@ == direction(last@, speed@, total@),
{
    let mut s: String = align_right(last, SIZE_WIDTH);
    s.append(" (");
    s.append(align_right(speed, SIZE_WIDTH).as_str());
    s.append("/s), ");
    s.append(align_right(total, SIZE_WIDTH).as_str());
    s.append(" total");
    s
}

/// Whether a text is one direction of a line of statistics with these sizes.
pub open spec fn tells(s: Seq<char>, last: usize, speed: u64, total: usize) -> bool {
    exists|l: Seq<char>, v: Seq<char>, t: Seq<char>|
        #![trigger direction(l, v, t)]
        s == direction(l, v, t) && size_reads(last as u64, l) && size_reads(speed, v) && size_reads(
            total as u64,
            t,
        )
}

fn direction_line(last: usize, speed: u64, total: usize) -> (s: String)
    ensures
        tells(s@, last, speed, total),
{
    let l: String = size_text(last as u64);
    let v: String = size_text(speed);
    let t: String = size_text(total as u64);
    transfer_line(l.as_str(), v.as_str(), t.as_str())
}

/// A line of statistics, from a report and the speeds in bytes per second.
pub fn report_line(report: &TransferReport, usb_speed: u64, tcp_speed: u64) -> (s: String)
    ensures
        exists|to_car: Seq<char>, to_phone: Seq<char>|
            {
                &&& #[trigger] tells(
                    to_car,
                    report.usb_transferred_last,
                    usb_speed,
                    report.usb_transferred_total,
                )
                &&& #[trigger] tells(
                    to_phone,
                    report.tcp_transferred_last,
                    tcp_speed,
                    report.tcp_transferred_total,
                )
                &&& s@ == "phone -> car 🔺 "@ + to_car + " | car -> phone 🔻 "@ + to_phone
            },
{
    let to_car: String = direction_line(
        report.usb_transferred_last,
        usb_speed,
        report.usb_transferred_total,
    );
    let to_phone: String = direction_line(
        report.tcp_transferred_last,
        tcp_speed,
        report.tcp_transferred_total,
    );
    let mut s: String = "phone -> car 🔺 ".to_owned();
    s.append(to_car.as_str());
    s.append(" | car -> phone 🔻 ");
    s.append(to_phone.as_str());
    s
}

/// A stall is reported exactly when more than the limit has passed since the last look for one and
/// a direction stands where it stood then: one of them is enough. Readings up to the limit make no
/// difference. A look that finds both directions moving is where the next silence is counted from.
pub proof fn law_silence_is_a_stall(m: TransferMonitor, samples: Seq<Sample>, s: Sample)
    requires
        forall|i: int|
            0 <= i < samples.len() ==> (#[trigger] samples[i]).now - m.stall_check
                <= m.read_timeout,
    ensures
        ({
            let here = monitor_after(m, samples);
            let next = here.looked(s.usb, s.tcp, s.now);
            let late = s.now - m.stall_check > m.read_timeout;
            let same_usb = s.usb == m.stall_usb_bytes_last;
            let same_tcp = s.tcp == m.stall_tcp_bytes_last;
            &&& here.tick_of(s.usb, s.tcp, s.now).stalled <==> late && (same_usb || same_tcp)
            &&& late && !same_usb && !same_tcp ==> checked_at(next, s)
            &&& !(late && !same_usb && !same_tcp) ==> next.stall_check == m.stall_check
                && next.stall_usb_bytes_last == m.stall_usb_bytes_last && next.stall_tcp_bytes_last
                == m.stall_tcp_bytes_last
        }),
    decreases samples.len(),
{
    lemma_early_readings_change_nothing(m, samples);
}

proof fn lemma_early_readings_change_nothing(m: TransferMonitor, samples: Seq<Sample>)
    requires
        forall|i: int|
            0 <= i < samples.len() ==> (#[trigger] samples[i]).now - m.stall_check
                <= m.read_timeout,
    ensures
        ({
            let here = monitor_after(m, samples);
            &&& here.read_timeout == m.read_timeout
            &&& here.stall_check == m.stall_check
            &&& here.stall_usb_bytes_last == m.stall_usb_bytes_last
            &&& here.stall_tcp_bytes_last == m.stall_tcp_bytes_last
        }),
    decreases samples.len(),
{
    if samples.len() > 0 {
        let before = samples.drop_last();
        assert forall|i: int| 0 <= i < before.len() implies (#[trigger] before[i]).now
            - m.stall_check <= m.read_timeout by {
            assert(before[i] == samples[i]);
        }
        lemma_early_readings_change_nothing(m, before);
        assert(samples.last() == samples[samples.len() - 1]);
    }
}

/// At the first reading that is later than the limit a session has stalled exactly if one of its
/// directions has carried nothing since it began: above all one in which nothing ever moved.
pub proof fn law_dead_session_is_found(
    stats_interval: Option<u128>,
    read_timeout: u128,
    start: u128,
    samples: Seq<Sample>,
    s: Sample,
)
    requires
        forall|i: int|
            0 <= i < samples.len() ==> (#[trigger] samples[i]).now - start <= read_timeout,
        s.now - start > read_timeout,
    ensures
        monitor_after(fresh_monitor(stats_interval, read_timeout, start), samples).tick_of(
            s.usb,
            s.tcp,
            s.now,
        ).stalled <==> s.usb == 0 || s.tcp == 0,
{
    law_silence_is_a_stall(fresh_monitor(stats_interval, read_timeout, start), samples, s);
}

/// A report is made exactly when more than the interval has passed since the last one, or since
/// the beginning. It gives what was carried since then and in all, and how long that took, and the
/// next report counts from there.
pub proof fn law_reports_follow_the_interval(m: TransferMonitor, usb: usize, tcp: usize, now: u128)
    requires
        m.follows(usb, tcp),
    ensures
        ({
            let report = m.tick_of(usb, tcp, now).report;
            let next = m.looked(usb, tcp, now);
            let due = m.stats_interval matches Some(d) && now - m.report_time > d;
            &&& report is Some <==> due
            &&& report matches Some(r) ==> {
                &&& r.usb_transferred_total == usb
                &&& r.tcp_transferred_total == tcp
                &&& r.usb_transferred_last + m.usb_bytes_out_last == usb
                &&& r.tcp_transferred_last + m.tcp_bytes_out_last == tcp
                &&& r.elapsed + m.report_time == now
                &&& next.usb_bytes_out_last == usb
                &&& next.tcp_bytes_out_last == tcp
                &&& next.report_time == now
            }
            &&& report is None ==> next.usb_bytes_out_last == m.usb_bytes_out_last
                && next.tcp_bytes_out_last == m.tcp_bytes_out_last && next.report_time
                == m.report_time
            &&& next.stats_interval == m.stats_interval
            &&& next.read_timeout == m.read_timeout
        }),
{
}

/// Whether the counters never go back from one reading to the next.
pub open spec fn counters_grow(m: TransferMonitor, samples: Seq<Sample>) -> bool
    decreases samples.len(),
{
    samples.len() == 0 || (counters_grow(m, samples.drop_last()) && monitor_after(
        m,
        samples.drop_last(),
    ).follows(samples.last().usb, samples.last().tcp))
}

/// The bytes to the car that the reports on these readings give as carried since the report
/// before.
pub open spec fn usb_reported(m: TransferMonitor, samples: Seq<Sample>) -> int
    decreases samples.len(),
{
    if samples.len() == 0 {
        0
    } else {
        let s = samples.last();
        let before = samples.drop_last();
        usb_reported(m, before) + match monitor_after(m, before).tick_of(
            s.usb,
            s.tcp,
            s.now,
        ).report {
            Some(r) => r.usb_transferred_last as int,
            None => 0,
        }
    }
}

/// The bytes to the phone that the reports on these readings give as carried since the report
/// before.
pub open spec fn tcp_reported(m: TransferMonitor, samples: Seq<Sample>) -> int
    decreases samples.len(),
{
    if samples.len() == 0 {
        0
    } else {
        let s = samples.last();
        let before = samples.drop_last();
        tcp_reported(m, before) + match monitor_after(m, before).tick_of(
            s.usb,
            s.tcp,
            s.now,
        ).report {
            Some(r) => r.tcp_transferred_last as int,
            None => 0,
        }
    }
}

proof fn lemma_reports_add_up(m: TransferMonitor, samples: Seq<Sample>)
    requires
        counters_grow(m, samples),
    ensures
        m.usb_bytes_out_last + usb_reported(m, samples) == monitor_after(
            m,
            samples,
        ).usb_bytes_out_last,
        m.tcp_bytes_out_last + tcp_reported(m, samples) == monitor_after(
            m,
            samples,
        ).tcp_bytes_out_last,
    decreases samples.len(),
{
    if samples.len() > 0 {
        lemma_reports_add_up(m, samples.drop_last());
    }
}

/// The reports of a session add up: whatever a report gives as the total is what that report and
/// all those before it give as carried since the one before.
pub proof fn law_reports_add_up(
    stats_interval: Option<u128>,
    read_timeout: u128,
    start: u128,
    samples: Seq<Sample>,
)
    requires
        samples.len() > 0,
        counters_grow(fresh_monitor(stats_interval, read_timeout, start), samples),
    ensures
        ({
            let m = fresh_monitor(stats_interval, read_timeout, start);
            let s = samples.last();
            monitor_after(m, samples.drop_last()).tick_of(s.usb, s.tcp, s.now).report matches Some(
                r,
            ) ==> usb_reported(m, samples) == r.usb_transferred_total && tcp_reported(m, samples)
                == r.tcp_transferred_total
        }),
{
    lemma_reports_add_up(fresh_monitor(stats_interval, read_timeout, start), samples);
}

/// In one direction of a line of statistics the three sizes end in the ninth, the twentieth and
/// the thirty-fourth column, in the order in which they are named: since the last report, the
/// speed, and in total.
pub proof fn law_sizes_stand_in_columns(last: Seq<char>, speed: Seq<char>, total: Seq<char>)
    requires
        last.len() <= 9,
        speed.len() <= 9,
        total.len() <= 9,
    ensures
        ({
            let s = direction(last, speed, total);
            &&& s.len() == 40
            &&& s.subrange(9 - last.len(), 9) == last
            &&& s.subrange(20 - speed.len(), 20) == speed
            &&& s.subrange(34 - total.len(), 34) == total
        }),
{
    reveal_strlit(" (");
    reveal_strlit("/s), ");
    reveal_strlit(" total");
    let s = direction(last, speed, total);
    assert(s.subrange(9 - last.len(), 9) == last);
    assert(s.subrange(20 - speed.len(), 20) == speed);
    assert(s.subrange(34 - total.len(), 34) == total);
}

/// Where all sizes are below 1024 bytes, the three columns hold them to the byte.
pub proof fn law_small_sizes_are_told_exactly(s: Seq<char>, last: usize, speed: u64, total: usize)
    requires
        tells(s, last, speed, total),
        last < 1024,
        speed < 1024,
        total < 1024,
    ensures
        ({
            let l = decimal(last as nat) + " B"@;
            let v = decimal(speed as nat) + " B"@;
            let t = decimal(total as nat) + " B"@;
            &&& s.len() == 40
            &&& s.subrange(9 - l.len(), 9) == l
            &&& s.subrange(20 - v.len(), 20) == v
            &&& s.subrange(34 - t.len(), 34) == t
        }),
{
    reveal_strlit(" B");
    let (l, v, t) = choose|l: Seq<char>, v: Seq<char>, t: Seq<char>|
        #![trigger direction(l, v, t)]
        s == direction(l, v, t) && size_reads(last as u64, l) && size_reads(speed, v) && size_reads(
            total as u64,
            t,
        );
    reveal_with_fuel(decimal, 5);
    law_sizes_stand_in_columns(l, v, t);
}

/// A session ends exactly if its transfer has stalled or the user asks for something. A stall goes
/// before what the user asks for, and leaves that pending; otherwise only to reconnect is done with
/// by ending the session.
pub proof fn law_why_a_session_ends(tick: Tick, action: Option<Action>, ending: Option<Ending>)
    requires
        call_ensures(session_ending, (&tick, action), ending),
    ensures
        ending is None <==> !tick.stalled && action is None,
        ending matches Some(e) ==> {
            &&& e.clear <==> !tick.stalled && action == Some(Action::Reconnect)
            &&& tick.stalled ==> e.message@ == "unexpected transfer stall"@
            &&& !tick.stalled && action == Some(Action::Reconnect) ==> e.message@
                == "action request: Reconnect"@
            &&& !tick.stalled && action == Some(Action::Reboot) ==> e.message@
                == "action request: Reboot"@
            &&& !tick.stalled && action == Some(Action::Stop) ==> e.message@
                == "action request: Stop"@
        },
{
    reveal_strlit("action request: ");
    reveal_strlit("Reconnect");
    reveal_strlit("Reboot");
    reveal_strlit("Stop");
    reveal_strlit("action request: Reconnect");
    reveal_strlit("action request: Reboot");
    reveal_strlit("action request: Stop");
    if let Some(e) = ending {
        assert(ACTION_REQUEST@ + "Reconnect"@ =~= "action request: Reconnect"@);
        assert(ACTION_REQUEST@ + "Reboot"@ =~= "action request: Reboot"@);
        assert(ACTION_REQUEST@ + "Stop"@ =~= "action request: Stop"@);
    }
}

/// A new monitor has seen nothing, and counts from when it began.
pub proof fn law_new_monitor_counts_from_its_beginning(
    stats_interval: Option<u128>,
    read_timeout: u128,
    now: u128,
    m: TransferMonitor,
)
    requires
        call_ensures(TransferMonitor::new, (stats_interval, read_timeout, now), m),
    ensures
        m.stats_interval == stats_interval,
        m.read_timeout == read_timeout,
        m.usb_bytes_out_last == 0 && m.tcp_bytes_out_last == 0,
        checked_at(m, first_reading(now)),
        m.report_time == now,
        m.follows(0, 0),
{
}

/// In a line of statistics the direction to the car comes first, and where all sizes are below 1024
/// bytes each of the six stands in its column.
pub proof fn law_report_tells_both_directions(
    report: TransferReport,
    usb_speed: u64,
    tcp_speed: u64,
    s: String,
)
    requires
        call_ensures(report_line, (&report, usb_speed, tcp_speed), s),
    ensures
        exists|to_car: Seq<char>, to_phone: Seq<char>|
            {
                &&& s@ == "phone -> car 🔺 "@ + to_car + " | car -> phone 🔻 "@ + to_phone
                &&& #[trigger] tells(
                    to_car,
                    report.usb_transferred_last,
                    usb_speed,
                    report.usb_transferred_total,
                )
                &&& #[trigger] tells(
                    to_phone,
                    report.tcp_transferred_last,
                    tcp_speed,
                    report.tcp_transferred_total,
                )
            },
{
}

/// A monitor can look at every reading that is not behind the one before: a new one at any, and one
/// that has looked at one at all that are not behind that.
pub proof fn law_growing_counters_can_be_looked_at(
    m: TransferMonitor,
    usb: usize,
    tcp: usize,
    now: u128,
    later_usb: usize,
    later_tcp: usize,
)
    requires
        m.follows(usb, tcp),
        usb <= later_usb,
        tcp <= later_tcp,
    ensures
        m.looked(usb, tcp, now).follows(later_usb, later_tcp),
        fresh_monitor(m.stats_interval, m.read_timeout, now).follows(usb, tcp),
{
}

/// Lengths of time are told in the same words everywhere, and an interval that is not set is told to
/// be disabled.
pub proof fn law_times_are_told_alike(secs: u64, interval: String, length: String, unset: String)
    requires
        call_ensures(stats_interval_text, (Some(secs),), interval),
        call_ensures(session_time_text, (secs, 0u32), length),
        call_ensures(stats_interval_text, (None,), unset),
    ensures
        interval@ == length@,
        interval@ == human_duration(secs, 0),
        unset@ == "disabled"@,
{
}

} // verus!
