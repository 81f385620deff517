use vstd::prelude::*;
use wasm_bindgen::JsValue;
use web_sys::Window;

use crate::error::{host_result, require_success, HostError};
use crate::global::{host_window, window_missing, window_obtained};
use crate::host::{schedule_once, schedule_repeating};

verus! {

/// `o` is what the host may answer when `w` is asked to run `handler` once
/// after `delay` milliseconds.
pub closed spec fn once_answer<T: Fn() + 'static>(w: Window, handler: T, delay: i32, o: Result<i32, JsValue>) -> bool {
    call_ensures(schedule_once::<T>, (&w, handler, delay), o)
}

/// `o` is what the host may answer when `w` is asked to run `handler` every
/// `interval` milliseconds.
pub closed spec fn repeating_answer<T: Fn() + 'static>(w: Window, handler: T, interval: i32, o: Result<i32, JsValue>) -> bool {
    call_ensures(schedule_repeating::<T>, (&w, handler, interval), o)
}

/// Runs `handler` once, after `timeout` milliseconds, and returns the timer's
/// identifier for `clear_timeout`. Fails where there is no window or the host
/// refuses the registration.
pub fn set_timeout<T: Fn() + 'static>(handler: T, timeout: i32) -> (r: Result<i32, HostError>)
    ensures
        (window_missing() && r == Err::<i32, HostError>(HostError::HostUnavailable))
            || (exists|w: Window, o: Result<i32, JsValue>| window_obtained(w) && #[trigger] once_answer(w, handler, timeout, o) && r == host_result(o)),
{
    let window = match host_window() {
        Ok(w) => w,
        Err(e) => return Err(e),
    };
    let outcome = schedule_once(&window, handler, timeout);
    proof {
        assert(once_answer(window, handler, timeout, outcome));
    }
    require_success(outcome)
}

/// Cancels the one-shot timer `timeout_id`. The host ignores an identifier
/// that is no longer pending, and without a window there is no timer to
/// cancel, so this never fails.
pub fn clear_timeout(timeout_id: i32) {
    if let Ok(window) = host_window() {
        window.clear_timeout_with_handle(timeout_id);
    }
}

/// Runs `handler` every `timeout` milliseconds until cancelled, and returns
/// the timer's identifier for `clear_interval`. Fails where there is no
/// window or the host refuses the registration.
pub fn set_interval<T: Fn() + 'static>(handler: T, timeout: i32) -> (r: Result<i32, HostError>)
    ensures
        (window_missing() && r == Err::<i32, HostError>(HostError::HostUnavailable))
            || (exists|w: Window, o: Result<i32, JsValue>| window_obtained(w) && #[trigger] repeating_answer(w, handler, timeout, o) && r == host_result(o)),
{
    let window = match host_window() {
        Ok(w) => w,
        Err(e) => return Err(e),
    };
    let outcome = schedule_repeating(&window, handler, timeout);
    proof {
        assert(repeating_answer(window, handler, timeout, outcome));
    }
    require_success(outcome)
}

/// Cancels the repeating timer `timeout`. The host ignores an identifier
/// that is no longer pending, and without a window there is no timer to
/// cancel, so this never fails.
pub fn clear_interval(timeout: i32) {
    if let Ok(window) = host_window() {
        window.clear_interval_with_handle(timeout);
    }
}

/// A one-shot timer, stopped with `stop`. Its view is the identifier that
/// the host issued for it.
#[derive(Clone, Copy)]
pub struct Timeout {
    timeout_id: i32,
}

impl View for Timeout {
    type V = i32;

    closed spec fn view(&self) -> i32 {
        self.timeout_id
    }
}

impl Timeout {
    /// Registers `handler` to run once after `timeout` milliseconds: the
    /// handle holds the identifier that `set_timeout` gave, and a failure of
    /// `set_timeout` is returned as it came.
    pub fn start<T: Fn() + 'static>(handler: T, timeout: i32) -> (r: Result<Timeout, HostError>)
        ensures
            match r {
                Ok(t) => call_ensures(set_timeout::<T>, (handler, timeout), Ok::<i32, HostError>(t@)),
                Err(e) => call_ensures(set_timeout::<T>, (handler, timeout), Err::<i32, HostError>(e)),
            },
    {
        let registered = set_timeout(handler, timeout);
        match registered {
            Ok(timeout_id) => Ok(Timeout { timeout_id }),
            Err(e) => Err(e),
        }
    }

    /// The identifier that the host issued for this timer.
    pub fn id(&self) -> (r: i32)
        ensures
            r == self@,
    {
        self.timeout_id
    }

    /// Cancels this timer through `clear_timeout` with its identifier.
    /// Calling it again, or after the callback has run, asks the host to
    /// cancel an identifier that is no longer pending, which the host ignores.
    pub fn stop(&self) {
        clear_timeout(self.timeout_id)
    }
}

/// A repeating timer, which runs until `stop` is called. Its view is the
/// identifier that the host issued for it.
pub struct Interval {
    interval_id: i32,
}

impl View for Interval {
    type V = i32;

    closed spec fn view(&self) -> i32 {
        self.interval_id
    }
}

impl Interval {
    /// Registers `handler` to run every `timeout` milliseconds: the handle
    /// holds the identifier that `set_interval` gave, and a failure of
    /// `set_interval` is returned as it came.
    pub fn start<T: Fn() + 'static>(handler: T, timeout: i32) -> (r: Result<Interval, HostError>)
        ensures
            match r {
                Ok(t) => call_ensures(set_interval::<T>, (handler, timeout), Ok::<i32, HostError>(t@)),
                Err(e) => call_ensures(set_interval::<T>, (handler, timeout), Err::<i32, HostError>(e)),
            },
    {
        let registered = set_interval(handler, timeout);
        match registered {
            Ok(interval_id) => Ok(Interval { interval_id }),
            Err(e) => Err(e),
        }
    }

    /// The identifier that the host issued for this timer.
    pub fn id(&self) -> (r: i32)
        ensures
            r == self@,
    {
        self.interval_id
    }

    /// Cancels this timer through `clear_interval` with its identifier.
    /// Calling it again asks the host to cancel an identifier that is no
    /// longer pending, which the host ignores.
    pub fn stop(&self) {
        clear_interval(self.interval_id)
    }
}

} // verus!
