//! What holds of the manager's operations taken together.
//!
//! Each law speaks of the open ports as a map from name to handle, the view
//! of a `ComPortManager`, and of the functions that the operations'
//! contracts are written in.

use crate::error::ErrorView;
use crate::manager::{
    after_open, close_answer, open_answer, open_decision, reconfigure_decision, OpenRequestView,
};
use crate::settings::PortSettings;
use crate::transfer::{
    flush_answer, flush_failure_detail, flush_timeout_detail, read_answer, write_answer,
    write_failure_detail, write_timeout_detail, IoOutcome,
};
use vstd::prelude::*;

verus! {

/// A closed port can be opened: with valid settings the driver is asked for
/// this very port, and once the driver hands over a handle the opening
/// succeeds.
pub proof fn law_closed_port_opens<H>(
    ports: Map<Seq<char>, H>,
    port_name: Seq<char>,
    settings: PortSettings,
    handle: H,
)
    requires
        !ports.contains_key(port_name),
        settings.is_valid(),
    ensures
        open_decision(ports.dom(), port_name, settings) is Ok,
        open_decision(ports.dom(), port_name, settings)->Ok_0.port_name == port_name,
        open_answer(ports, port_name, Ok(handle)) is Ok,
{
}

/// After a successful opening the port is open, under the handle that the
/// driver gave, and every other port is as before.
pub proof fn law_opened_port_is_open<H>(
    ports: Map<Seq<char>, H>,
    port_name: Seq<char>,
    outcome: Result<H, String>,
)
    requires
        open_answer(ports, port_name, outcome) is Ok,
    ensures
        outcome is Ok,
        after_open(ports, port_name, outcome).contains_key(port_name),
        after_open(ports, port_name, outcome)[port_name] == outcome->Ok_0,
        after_open(ports, port_name, outcome).remove(port_name) == ports,
{
}

/// An opening that fails changes nothing.
pub proof fn law_failed_opening_changes_nothing<H>(
    ports: Map<Seq<char>, H>,
    port_name: Seq<char>,
    outcome: Result<H, String>,
)
    requires
        open_answer(ports, port_name, outcome) is Err,
    ensures
        after_open(ports, port_name, outcome) == ports,
{
}

/// After `close_port` the port is not open, whatever the answer was, and
/// every other port is as before.
pub proof fn law_closed_port_is_not_open<H>(
    ports: Map<Seq<char>, H>,
    port_name: Seq<char>,
    other: Seq<char>,
)
    requires
        other != port_name,
    ensures
        !ports.remove(port_name).contains_key(port_name),
        ports.remove(port_name).contains_key(other) == ports.contains_key(other),
        ports.contains_key(other) ==> ports.remove(port_name)[other] == ports[other],
{
}

/// An open port is never opened again: the answer is `PortAlreadyOpen`,
/// whatever the settings are, valid or not.
pub proof fn law_open_port_is_not_opened_again(
    open: Set<Seq<char>>,
    port_name: Seq<char>,
    settings: PortSettings,
)
    requires
        open.contains(port_name),
    ensures
        open_decision(open, port_name, settings) == Err::<OpenRequestView, ErrorView>(
            ErrorView::PortAlreadyOpen(port_name),
        ),
{
}

/// Settings with a field outside its set never reach the driver: on a
/// closed port the answer is `InvalidConfiguration` with the complaint of
/// the settings.
pub proof fn law_invalid_settings_are_refused(
    open: Set<Seq<char>>,
    port_name: Seq<char>,
    settings: PortSettings,
)
    requires
        !open.contains(port_name),
        !settings.is_valid(),
    ensures
        open_decision(open, port_name, settings) == Err::<OpenRequestView, ErrorView>(
            ErrorView::InvalidConfiguration(settings.line_config()->Err_0),
        ),
{
}

/// A port that is not open cannot be closed or reconfigured: the answer is
/// `PortNotOpen`, the driver is not asked, and the open ports stay as they
/// are.
pub proof fn law_closed_port_is_refused<H>(
    ports: Map<Seq<char>, H>,
    port_name: Seq<char>,
    settings: PortSettings,
)
    requires
        !ports.contains_key(port_name),
    ensures
        close_answer(ports.dom(), port_name) == Err::<(), ErrorView>(
            ErrorView::PortNotOpen(port_name),
        ),
        reconfigure_decision(ports.dom(), port_name, settings) == Err::<OpenRequestView, ErrorView>(
            ErrorView::PortNotOpen(port_name),
        ),
        ports.remove(port_name) == ports,
{
}

/// Reconfiguring an open port closes it first. Where the reopening fails,
/// be it that the settings are refused or that the driver complains, the
/// port is left closed, and can be opened afresh: valid settings pass, and
/// a handle from the driver makes the port open.
pub proof fn law_failed_reopening_leaves_port_closed<H>(
    ports: Map<Seq<char>, H>,
    port_name: Seq<char>,
    settings: PortSettings,
    cause: String,
    later: PortSettings,
    handle: H,
)
    requires
        ports.contains_key(port_name),
        later.is_valid(),
    ensures
        ({
            let closed = ports.remove(port_name);
            &&& !closed.contains_key(port_name)
            &&& reconfigure_decision(ports.dom(), port_name, settings) == open_decision(
                closed.dom(),
                port_name,
                settings,
            )
            &&& !settings.is_valid() ==> reconfigure_decision(ports.dom(), port_name, settings)
                is Err
            &&& open_answer(closed, port_name, Err(cause)) is Err
            &&& after_open(closed, port_name, Err(cause)) == closed
            &&& open_decision(closed.dom(), port_name, later) is Ok
            &&& open_answer(closed, port_name, Ok(handle)) is Ok
            &&& after_open(closed, port_name, Ok(handle)).contains_key(port_name)
        }),
{
}

/// A read that ran out of time gives no bytes and no error, whatever the
/// buffer holds.
pub proof fn law_read_timeout_gives_no_bytes(port_name: Seq<char>, buffer: Seq<u8>)
    ensures
        read_answer(port_name, buffer, IoOutcome::TimedOut) == Ok::<Seq<u8>, ErrorView>(
            Seq::empty(),
        ),
{
}

/// A write or a flush that ran out of time is told apart from one that the
/// driver failed: both are `WriteFailed`, and their details differ,
/// whatever the ports' names and the driver's complaint are.
pub proof fn law_write_timeout_is_told_apart(
    port_name: Seq<char>,
    other_name: Seq<char>,
    cause: String,
    written: usize,
)
    ensures
        write_answer(port_name, IoOutcome::TimedOut) is Err,
        write_answer(port_name, IoOutcome::TimedOut)->Err_0 is WriteFailed,
        flush_answer(port_name, written, IoOutcome::TimedOut) is Err,
        flush_answer(port_name, written, IoOutcome::TimedOut)->Err_0 is WriteFailed,
        write_timeout_detail(port_name) != write_failure_detail(other_name),
        write_timeout_detail(port_name) != flush_failure_detail(other_name),
        flush_timeout_detail(port_name) != write_failure_detail(other_name),
        flush_timeout_detail(port_name) != flush_failure_detail(other_name),
        write_answer(port_name, IoOutcome::TimedOut) != write_answer(
            other_name,
            IoOutcome::Failed(cause),
        ),
        flush_answer(port_name, written, IoOutcome::TimedOut) != flush_answer(
            other_name,
            written,
            IoOutcome::Failed(cause),
        ),
{
    reveal_strlit("Write operation timed out after ");
    reveal_strlit("Flush operation timed out after ");
    reveal_strlit("Failed to write data to port: ");
    reveal_strlit("Failed to flush port: ");
    // The details part within two characters: a timeout's detail begins
    // with `Wr` or `Fl`, a failure's with `Fa`.
    assert(write_failure_detail(other_name)[1] == 'a');
    assert(flush_failure_detail(other_name)[1] == 'a');
}

/// After `close_all_ports` no port is open.
pub proof fn law_close_all_leaves_no_port_open<H>(port_name: Seq<char>)
    ensures
        !Map::<Seq<char>, H>::empty().contains_key(port_name),
{
}

/// Of two openings of one closed port, exactly one succeeds, and the other
/// is answered `PortAlreadyOpen`. This holds where the second is decided
/// after the first is settled, and also where both were decided before
/// either was settled; the handle of the first stays in place.
pub proof fn law_one_of_two_openings_succeeds<H>(
    ports: Map<Seq<char>, H>,
    port_name: Seq<char>,
    first: PortSettings,
    second: PortSettings,
    first_handle: H,
    second_handle: H,
)
    requires
        !ports.contains_key(port_name),
        first.is_valid(),
        second.is_valid(),
    ensures
        ({
            let settled = after_open(ports, port_name, Ok(first_handle));
            &&& open_decision(ports.dom(), port_name, first) is Ok
            &&& open_decision(ports.dom(), port_name, second) is Ok
            &&& open_answer(ports, port_name, Ok(first_handle)) is Ok
            &&& open_decision(settled.dom(), port_name, second) == Err::<OpenRequestView, ErrorView>(
                ErrorView::PortAlreadyOpen(port_name),
            )
            &&& open_answer(settled, port_name, Ok(second_handle)) == Err::<(), ErrorView>(
                ErrorView::PortAlreadyOpen(port_name),
            )
            &&& after_open(settled, port_name, Ok(second_handle)) == settled
            &&& settled[port_name] == first_handle
        }),
{
}

} // verus!
