use vstd::prelude::*;

verus! {

/// Minutes between two "still recording" notifications.
pub const NOTIFY_INTERVAL_MINUTES: i64 = 15;

/// The outcome of one notifier check: whether to emit a notification
/// (and with how many elapsed minutes), and the new reference time.
pub struct NotifierStep {
    pub elapsed_minutes: Option<i64>,
    pub last_notification: i64,
}

/// The elapsed-time notifier, run on every delivered buffer of the
/// system-audio path: once the notification interval has passed since the
/// last notification, it reports the minutes elapsed since the recording
/// started and resets the reference time; otherwise it does nothing. It
/// performs only this comparison, so it cannot slow the write path.
pub fn notifier_step(started_min: i64, last_notif_min: i64, now_min: i64) -> (r: NotifierStep)
    requires
        0 <= started_min <= now_min,
        started_min <= last_notif_min <= now_min,
    ensures
        now_min - last_notif_min >= NOTIFY_INTERVAL_MINUTES ==> r.elapsed_minutes == Some(
            (now_min - started_min) as i64,
        ) && r.last_notification == now_min,
        now_min - last_notif_min < NOTIFY_INTERVAL_MINUTES ==> r.elapsed_minutes is None
            && r.last_notification == last_notif_min,
{
    if now_min - last_notif_min >= NOTIFY_INTERVAL_MINUTES {
        NotifierStep { elapsed_minutes: Some(now_min - started_min), last_notification: now_min }
    } else {
        NotifierStep { elapsed_minutes: None, last_notification: last_notif_min }
    }
}

} // verus!
