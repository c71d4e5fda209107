//! What the requests put on the bus, byte for byte, what the lines of a
//! board add to that, and how the cached orientation follows the register.

use crate::error::Error;
use crate::operation::OperationView;
use crate::orientation::Orientation;
use crate::program::{
    address_window_program, backlight_program, framebuffer_program, hard_reset_program,
    init_program, init_register_written, orientation_program, pixel_program, pixels_program,
};
use crate::report::Report;
use crate::run::{
    cache_follows_write, failure_ends_run, performed, state_after, step,
    success_performs_whole_program, unbroken, write_reported, ActionView, RunState, Staged,
};
use vstd::prelude::*;

verus! {

/// Where a run stands before its first step.
pub open spec fn planned(
    program: Seq<OperationView>,
    staged: Option<Staged>,
    cached: Orientation,
) -> RunState {
    RunState { remaining: program, staged, cached, driving: false }
}

/// What bringing the panel up stages: the default orientation, written by
/// the memory access control command and its parameter byte.
pub open spec fn init_staged(has_reset: bool, has_backlight: bool) -> Option<Staged> {
    Some(
        Staged {
            orientation: Orientation::Portrait,
            left: init_register_written(has_reset, has_backlight),
        },
    )
}

/// What selecting an orientation stages: that orientation, written by the
/// two bursts of the request.
pub open spec fn orientation_staged(orientation: Orientation) -> Option<Staged> {
    Some(Staged { orientation, left: 2 })
}

/// Whether no operation of `program` drives a line.
pub open spec fn drives_no_line(program: Seq<OperationView>) -> bool {
    forall|i: int| 0 <= i < program.len() ==> !(#[trigger] program[i]).drives_line()
}

/// Setting the address window, when nothing fails, sends exactly this: the
/// column address command, the start column and the end column, the row
/// address command, the start row and the end row. Each bound is a data
/// burst of two bytes, high byte first. The cached orientation stays.
pub proof fn address_window_on_the_bus<PinE>(
    sx: u16,
    sy: u16,
    ex: u16,
    ey: u16,
    cached: Orientation,
    reports: Seq<Report<PinE>>,
)
    requires
        unbroken(reports),
        reports.len() == 7,
    ensures
        performed(planned(address_window_program(sx, sy, ex, ey), None, cached), reports) == seq![
            OperationView::Command(0x2A),
            OperationView::Data(seq![(sx / 256) as u8, (sx % 256) as u8]),
            OperationView::Data(seq![(ex / 256) as u8, (ex % 256) as u8]),
            OperationView::Command(0x2B),
            OperationView::Data(seq![(sy / 256) as u8, (sy % 256) as u8]),
            OperationView::Data(seq![(ey / 256) as u8, (ey % 256) as u8]),
        ],
        state_after(
            planned(address_window_program(sx, sy, ex, ey), None, cached),
            reports,
        ).cached == cached,
{
    let state = planned(address_window_program(sx, sy, ex, ey), None, cached);
    success_performs_whole_program(state, reports);
}

/// Setting one pixel, when nothing fails, sends what setting the window to
/// that one pixel sends, then the memory write command and the color as a
/// data burst of exactly two bytes, high byte first.
pub proof fn pixel_on_the_bus<PinE>(
    x: u16,
    y: u16,
    color: u16,
    cached: Orientation,
    reports: Seq<Report<PinE>>,
)
    requires
        unbroken(reports),
        reports.len() == 9,
    ensures
        performed(planned(pixel_program(x, y, color), None, cached), reports)
            == address_window_program(x, y, x, y) + seq![
            OperationView::Command(0x2C),
            OperationView::Data(seq![(color / 256) as u8, (color % 256) as u8]),
        ],
        address_window_program(x, y, x, y) == performed(
            planned(address_window_program(x, y, x, y), None, cached),
            reports.take(7),
        ),
{
    let window = planned(address_window_program(x, y, x, y), None, cached);
    let pixel = planned(pixel_program(x, y, color), None, cached);
    assert(unbroken(reports.take(7))) by {
        assert forall|i: int| 0 <= i < 7 implies !(#[trigger] reports.take(7)[i]).is_failure() by {}
    }
    success_performs_whole_program(window, reports.take(7));
    success_performs_whole_program(pixel, reports);
}

/// Selecting an orientation sends the memory access control command and the
/// one byte that stands for the orientation. When nothing fails, the
/// orientation is cached from then on.
pub proof fn orientation_is_cached_on_success<PinE>(
    orientation: Orientation,
    cached: Orientation,
    reports: Seq<Report<PinE>>,
)
    requires
        unbroken(reports),
        reports.len() == 3,
    ensures
        performed(
            planned(orientation_program(orientation), orientation_staged(orientation), cached),
            reports,
        ) == seq![
            OperationView::Command(0x36),
            OperationView::Data(seq![orientation.spec_bits()]),
        ],
        state_after(
            planned(orientation_program(orientation), orientation_staged(orientation), cached),
            reports,
        ).cached == orientation,
{
    let state = planned(
        orientation_program(orientation),
        orientation_staged(orientation),
        cached,
    );
    success_performs_whole_program(state, reports);
}

/// When selecting an orientation meets a failure, the cached orientation is
/// what it was before, whatever is reported afterwards.
pub proof fn orientation_is_kept_on_failure<PinE>(
    orientation: Orientation,
    cached: Orientation,
    before: Seq<Report<PinE>>,
    failed: Report<PinE>,
    later: Seq<Report<PinE>>,
)
    requires
        unbroken(before),
        before.len() <= 2,
        failed.is_failure(),
    ensures
        state_after(
            planned(orientation_program(orientation), orientation_staged(orientation), cached),
            before + seq![failed] + later,
        ).cached == cached,
{
    let state = planned(
        orientation_program(orientation),
        orientation_staged(orientation),
        cached,
    );
    failure_ends_run(state, before, failed, later);
}

/// How many operations bringing the panel up takes: 34 for the registers
/// and their waits, 6 more with a reset line, 3 more with a backlight line.
/// The orientation register is written by the fifteenth and the sixteenth
/// of the 34: the memory access control command and its parameter byte,
/// which sets the register for the default orientation.
pub proof fn init_program_layout(has_reset: bool, has_backlight: bool)
    ensures
        init_program(has_reset, has_backlight).len() == 34 + (if has_reset {
            6int
        } else {
            0int
        }) + (if has_backlight {
            3int
        } else {
            0int
        }),
        init_register_written(has_reset, has_backlight) == 16 + (if has_reset {
            6int
        } else {
            0int
        }) + (if has_backlight {
            3int
        } else {
            0int
        }),
        init_program(has_reset, has_backlight)[init_register_written(has_reset, has_backlight)
            - 2] == OperationView::Command(0x36),
        init_program(has_reset, has_backlight)[init_register_written(has_reset, has_backlight)
            - 1] == OperationView::Data(seq![0x48]),
{
}

/// Bringing the panel up, when nothing fails, performs the whole documented
/// program in its order, with nothing added and nothing left out. It sets
/// the orientation register for the default orientation, and the default
/// orientation is cached from then on.
pub proof fn init_on_the_bus<PinE>(
    has_reset: bool,
    has_backlight: bool,
    cached: Orientation,
    reports: Seq<Report<PinE>>,
)
    requires
        unbroken(reports),
        reports.len() == init_program(has_reset, has_backlight).len() + 1,
    ensures
        performed(
            planned(
                init_program(has_reset, has_backlight),
                init_staged(has_reset, has_backlight),
                cached,
            ),
            reports,
        ) == init_program(has_reset, has_backlight),
        state_after(
            planned(
                init_program(has_reset, has_backlight),
                init_staged(has_reset, has_backlight),
                cached,
            ),
            reports,
        ).cached == Orientation::Portrait,
{
    success_performs_whole_program(
        planned(
            init_program(has_reset, has_backlight),
            init_staged(has_reset, has_backlight),
            cached,
        ),
        reports,
    );
}

/// A failure while the panel is brought up ends the initialization at
/// once: the operation that failed is the last one performed, and nothing
/// of the program behind it is performed, whatever is reported afterwards.
/// If the failure comes after the parameter byte of memory access control
/// was reported sent, the register holds the default orientation and so
/// does the cache; if it comes before, the cache is what it was.
pub proof fn init_stops_at_failure<PinE>(
    has_reset: bool,
    has_backlight: bool,
    cached: Orientation,
    before: Seq<Report<PinE>>,
    failed: Report<PinE>,
    later: Seq<Report<PinE>>,
)
    requires
        unbroken(before),
        before.len() <= init_program(has_reset, has_backlight).len(),
        failed.is_failure(),
    ensures
        performed(
            planned(
                init_program(has_reset, has_backlight),
                init_staged(has_reset, has_backlight),
                cached,
            ),
            before + seq![failed] + later,
        ) == init_program(has_reset, has_backlight).take(before.len() as int),
        state_after(
            planned(
                init_program(has_reset, has_backlight),
                init_staged(has_reset, has_backlight),
                cached,
            ),
            before + seq![failed] + later,
        ).cached == (if before.len() > init_register_written(has_reset, has_backlight) {
            Orientation::Portrait
        } else {
            cached
        }),
{
    failure_ends_run(
        planned(
            init_program(has_reset, has_backlight),
            init_staged(has_reset, has_backlight),
            cached,
        ),
        before,
        failed,
        later,
    );
}

/// The lines of a board add their own operations in front and change
/// nothing else. With a line missing, its operations are missing and no
/// other: the reset pulse of a board without a reset line is empty, and
/// bringing up a board with lines is the reset pulse, the backlight cycle,
/// and then what bringing up a board without lines is. That part holds
/// every burst of the program and drives no line; the two in front hold no
/// burst.
pub proof fn lines_add_only_line_operations(has_reset: bool, has_backlight: bool)
    ensures
        hard_reset_program(false) == Seq::<OperationView>::empty(),
        backlight_program(false) == Seq::<OperationView>::empty(),
        init_program(has_reset, has_backlight) == hard_reset_program(has_reset)
            + backlight_program(has_backlight) + init_program(false, false),
        drives_no_line(init_program(false, false)),
        forall|i: int|
            0 <= i < hard_reset_program(has_reset).len() ==> !(#[trigger] hard_reset_program(
                has_reset,
            )[i]).is_burst(),
        forall|i: int|
            0 <= i < backlight_program(has_backlight).len() ==> !(#[trigger] backlight_program(
                has_backlight,
            )[i]).is_burst(),
{
}

/// The requests that only talk over the bus drive no line.
pub proof fn bus_requests_drive_no_line(
    sx: u16,
    sy: u16,
    ex: u16,
    ey: u16,
    color: u16,
    colors: Seq<u16>,
    orientation: Orientation,
    buffer: Seq<u8>,
)
    ensures
        drives_no_line(address_window_program(sx, sy, ex, ey)),
        drives_no_line(pixel_program(sx, sy, color)),
        drives_no_line(pixels_program(sx, sy, ex, ey, colors)),
        drives_no_line(orientation_program(orientation)),
        drives_no_line(framebuffer_program(buffer)),
{
}

/// A request that drives no line fails with a display error and with no
/// other: whatever failure is reported, at whatever step, the run ends with
/// the display error.
pub proof fn without_lines_every_failure_is_a_display_error<PinE>(
    program: Seq<OperationView>,
    staged: Option<Staged>,
    cached: Orientation,
    before: Seq<Report<PinE>>,
    failed: Report<PinE>,
)
    requires
        drives_no_line(program),
        unbroken(before),
        before.len() <= program.len(),
        failed.is_failure(),
    ensures
        step(state_after(planned(program, staged, cached), before), failed).1
            == ActionView::<PinE>::Finish(Err(Error::DisplayError)),
{
    let state = planned(program, staged, cached);
    failure_ends_run(state, before, failed, Seq::empty());
}

/// A request as it was carried out: what was planned, and what was
/// reported to it step by step.
pub struct Carried<PinE> {
    /// The operations that the request consists of.
    pub program: Seq<OperationView>,
    /// The write of the orientation register that the request holds, if
    /// any.
    pub staged: Option<Staged>,
    /// The reports that the run got, the first one first.
    pub reports: Seq<Report<PinE>>,
}

/// The orientation that a driver has cached after `requests` were carried
/// out one after the other, the first one first, by a driver that had
/// `initial` cached before.
pub open spec fn cached_after<PinE>(initial: Orientation, requests: Seq<Carried<PinE>>) -> Orientation
    decreases requests.len(),
{
    if requests.len() == 0 {
        initial
    } else {
        state_after(
            planned(
                requests.last().program,
                requests.last().staged,
                cached_after(initial, requests.drop_last()),
            ),
            requests.last().reports,
        ).cached
    }
}

/// The orientation that the register was set to last: that of the latest
/// of `requests` whose write of the register was reported done, and
/// `initial` if there is no such request.
pub open spec fn last_written<PinE>(initial: Orientation, requests: Seq<Carried<PinE>>) -> Orientation
    decreases requests.len(),
{
    if requests.len() == 0 {
        initial
    } else if write_reported(
        planned(requests.last().program, requests.last().staged, initial),
        requests.last().reports,
    ) {
        requests.last().staged.unwrap().orientation
    } else {
        last_written(initial, requests.drop_last())
    }
}

/// Through any sequence of requests, whatever they are and however each of
/// them goes, the cached orientation is the one that was last written to
/// the orientation register with success.
pub proof fn cache_is_what_the_register_holds<PinE>(
    initial: Orientation,
    requests: Seq<Carried<PinE>>,
)
    ensures
        cached_after(initial, requests) == last_written(initial, requests),
    decreases requests.len(),
{
    if requests.len() > 0 {
        let last = requests.last();
        let before = cached_after(initial, requests.drop_last());
        cache_is_what_the_register_holds(initial, requests.drop_last());
        cache_follows_write(planned(last.program, last.staged, before), last.reports);
    }
}

} // verus!
