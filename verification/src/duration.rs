//! Lengths of time, and the fixed ones that the service uses.

use vstd::prelude::*;

verus! {

/// Nanoseconds in one second.
pub const NANOS_PER_SEC: u128 = 1_000_000_000;

/// Nanoseconds in one millisecond.
pub const NANOS_PER_MILLI: u128 = 1_000_000;

/// A length of time, in whole nanoseconds.
#[derive(Clone, Copy, Debug, PartialEq, Eq, Structural)]
pub struct Duration {
    pub nanos: u128,
}

impl Duration {
    /// The length of `secs` seconds, as a specification.
    pub open spec fn of_secs(secs: u64) -> Duration {
        Duration { nanos: (secs * 1_000_000_000) as u128 }
    }

    /// The length of `millis` milliseconds, as a specification.
    pub open spec fn of_millis(millis: u64) -> Duration {
        Duration { nanos: (millis * 1_000_000) as u128 }
    }

    /// A length of whole seconds.
    pub fn from_secs(secs: u64) -> (duration: Self)
        ensures
            duration == Self::of_secs(secs),
            duration.nanos == secs * 1_000_000_000,
    {
        Duration { nanos: secs as u128 * NANOS_PER_SEC }
    }

    /// A length of whole milliseconds.
    pub fn from_millis(millis: u64) -> (duration: Self)
        ensures
            duration == Self::of_millis(millis),
            duration.nanos == millis * 1_000_000,
    {
        Duration { nanos: millis as u128 * NANOS_PER_MILLI }
    }

    /// The number of whole milliseconds in this length of time.
    pub fn as_millis(&self) -> (millis: u128)
        ensures
            millis == self.nanos / 1_000_000,
    {
        self.nanos / NANOS_PER_MILLI
    }

    /// The longer of the two.
    pub fn max(self, other: Self) -> (longer: Self)
        ensures
            longer == if self.nanos < other.nanos {
                other
            } else {
                self
            },
    {
        if self.nanos < other.nanos {
            other
        } else {
            self
        }
    }
}

/// The shortest time that a download of known size is given, in seconds.
pub const MIN_STREAM_TIMEOUT_SECS: u64 = 10;

/// The time that a download of known size is given, where `scaled` is the timeout per gigabyte
/// times the size of the download in gigabytes.
pub open spec fn stream_timeout(scaled: Duration) -> Duration {
    let shortest = Duration::of_secs(MIN_STREAM_TIMEOUT_SECS);
    if scaled.nanos < shortest.nanos {
        shortest
    } else {
        scaled
    }
}

/// Returns the given length of time, but never less than 10 seconds.
pub fn at_least_minimum(scaled: Duration) -> (timeout: Duration)
    ensures
        timeout == stream_timeout(scaled),
{
    scaled.max(Duration::from_secs(MIN_STREAM_TIMEOUT_SECS))
}

/// The timeout is one that a download of the given length gets, where `scale` multiplies a timeout
/// per gigabyte by the gigabytes in a number of bytes. A negative length counts as too short to ask
/// for any time.
pub open spec fn gives_timeout<K>(
    scale: K,
    content_length: i64,
    timeout_per_gb: Duration,
    timeout: Duration,
) -> bool where K: Fn(Duration, i64) -> Duration {
    if content_length < 0 {
        timeout == Duration::of_secs(MIN_STREAM_TIMEOUT_SECS)
    } else {
        exists|scaled: Duration|
            {
                &&& #[trigger] call_ensures(scale, (timeout_per_gb, content_length), scaled)
                &&& timeout == stream_timeout(scaled)
            }
    }
}

/// Computes a download timeout based on a content length in bytes and a per-gigabyte timeout.
///
/// `scale` multiplies a timeout per gigabyte by the gigabytes in a number of bytes. The result is
/// what it returns, but never less than 10 seconds. It is not asked about a negative length, for
/// which the result is 10 seconds.
pub fn content_length_timeout<K>(
    content_length: i64,
    timeout_per_gb: Duration,
    scale: K,
) -> (timeout: Duration) where K: Fn(Duration, i64) -> Duration
    requires
        content_length >= 0 ==> call_requires(scale, (timeout_per_gb, content_length)),
    ensures
        gives_timeout(scale, content_length, timeout_per_gb, timeout),
{
    if content_length < 0 {
        Duration::from_secs(MIN_STREAM_TIMEOUT_SECS)
    } else {
        at_least_minimum(scale(timeout_per_gb, content_length))
    }
}

/// The limit is one that a download gets: none if its length is not known.
pub open spec fn gives_limit<K>(
    scale: K,
    content_length: Option<i64>,
    timeout_per_gb: Duration,
    limit: Option<Duration>,
) -> bool where K: Fn(Duration, i64) -> Duration {
    match content_length {
        Some(length) => {
            &&& limit matches Some(timeout)
            &&& gives_timeout(scale, length, timeout_per_gb, timeout)
        },
        None => limit is None,
    }
}

/// Computes the time that a download is given, which is not limited if its length is not known.
///
/// `scale` multiplies a timeout per gigabyte by the gigabytes in a number of bytes.
pub fn download_timeout<K>(
    content_length: Option<i64>,
    timeout_per_gb: Duration,
    scale: K,
) -> (timeout: Option<Duration>) where K: Fn(Duration, i64) -> Duration
    requires
        content_length matches Some(length) ==> length >= 0 ==> call_requires(
            scale,
            (timeout_per_gb, length),
        ),
    ensures
        gives_limit(scale, content_length, timeout_per_gb, timeout),
{
    match content_length {
        Some(length) => Some(content_length_timeout(length, timeout_per_gb, scale)),
        None => None,
    }
}

/// A download is given 10 seconds at least, and all the time that its size asks for. One that
/// asks for more time than another is not given less.
pub proof fn law_stream_timeout_is_bounded_below(scaled: Duration, longer: Duration)
    requires
        scaled.nanos <= longer.nanos,
    ensures
        stream_timeout(scaled).nanos >= Duration::of_secs(10).nanos,
        stream_timeout(scaled).nanos >= scaled.nanos,
        stream_timeout(scaled) == scaled || stream_timeout(scaled) == Duration::of_secs(10),
        stream_timeout(scaled).nanos <= stream_timeout(longer).nanos,
{
}

/// What `scale` returns does not get shorter when the timeout per gigabyte or the number of bytes
/// grows.
pub open spec fn is_monotone<K>(scale: K) -> bool where K: Fn(Duration, i64) -> Duration {
    forall|
        shorter: Duration,
        longer: Duration,
        fewer: i64,
        more: i64,
        first: Duration,
        second: Duration,
    |
        {
            &&& shorter.nanos <= longer.nanos
            &&& 0 <= fewer <= more
            &&& #[trigger] call_ensures(scale, (shorter, fewer), first)
            &&& #[trigger] call_ensures(scale, (longer, more), second)
        } ==> first.nanos <= second.nanos
}

/// The timeout of a download is 10 seconds at least, and a longer download or a longer timeout per
/// gigabyte never gives a shorter one, whatever sign the lengths have.
pub proof fn law_timeouts_are_monotone<K>(
    scale: K,
    fewer: i64,
    more: i64,
    shorter: Duration,
    longer: Duration,
    first: Duration,
    second: Duration,
) where K: Fn(Duration, i64) -> Duration
    requires
        is_monotone(scale),
        fewer <= more,
        shorter.nanos <= longer.nanos,
        gives_timeout(scale, fewer, shorter, first),
        gives_timeout(scale, more, longer, second),
    ensures
        Duration::of_secs(10).nanos <= first.nanos <= second.nanos,
{
}

/// A second is a thousand milliseconds and a billion nanoseconds, and the milliseconds of a length
/// of time are those that it has in full.
pub proof fn law_units_of_time(
    secs: u64,
    of_secs: Duration,
    millis: u64,
    of_millis: Duration,
    duration: Duration,
    whole: u128,
)
    requires
        call_ensures(Duration::from_secs, (secs,), of_secs),
        call_ensures(Duration::from_millis, (millis,), of_millis),
        call_ensures(Duration::as_millis, (&duration,), whole),
    ensures
        of_secs.nanos == 1_000_000_000 * secs,
        millis == 1000 * secs ==> of_millis == of_secs,
        duration == of_millis ==> whole == millis,
        1_000_000 * whole <= duration.nanos < 1_000_000 * (whole + 1),
{
}

/// The longer of two lengths of time is one of them, and neither of them is longer.
pub proof fn law_maximum(first: Duration, second: Duration, longer: Duration)
    requires
        call_ensures(Duration::max, (first, second), longer),
    ensures
        longer == first || longer == second,
        first.nanos <= longer.nanos,
        second.nanos <= longer.nanos,
{
}

/// Whatever is asked for is granted, only that it is never less than 10 seconds.
pub proof fn law_minimum_is_ten_seconds(scaled: Duration, timeout: Duration)
    requires
        call_ensures(at_least_minimum, (scaled,), timeout),
    ensures
        timeout.nanos >= 10_000_000_000,
        timeout.nanos >= scaled.nanos,
        timeout.nanos > 10_000_000_000 ==> timeout == scaled,
{
}

/// A download is given all the time that its size asks for and no more than that, however long it
/// is, but 10 seconds at least. A negative size asks for no time.
pub proof fn law_downloads_get_the_time_they_need<K>(
    content_length: i64,
    timeout_per_gb: Duration,
    scale: K,
    timeout: Duration,
) where K: Fn(Duration, i64) -> Duration
    requires
        call_ensures(
            content_length_timeout::<K>,
            (content_length, timeout_per_gb, scale),
            timeout,
        ),
    ensures
        timeout.nanos >= 10_000_000_000,
        content_length < 0 ==> timeout.nanos == 10_000_000_000,
        content_length >= 0 ==> exists|scaled: Duration|
            {
                &&& #[trigger] call_ensures(scale, (timeout_per_gb, content_length), scaled)
                &&& timeout.nanos >= scaled.nanos
                &&& timeout.nanos > 10_000_000_000 ==> timeout == scaled
            },
{
}

/// Where the size of a download asks for one length of time only, that is its timeout as soon as it
/// is at least 10 seconds.
pub proof fn law_timeouts_have_no_upper_limit<K>(
    content_length: i64,
    timeout_per_gb: Duration,
    scale: K,
    scaled: Duration,
    timeout: Duration,
) where K: Fn(Duration, i64) -> Duration
    requires
        content_length >= 0,
        forall|other: Duration| #[trigger]
            call_ensures(scale, (timeout_per_gb, content_length), other) ==> other == scaled,
        gives_timeout(scale, content_length, timeout_per_gb, timeout),
    ensures
        timeout.nanos >= scaled.nanos,
        scaled.nanos >= 10_000_000_000 ==> timeout == scaled,
        scaled.nanos < 10_000_000_000 ==> timeout.nanos == 10_000_000_000,
{
}

/// A download is limited exactly if its length is known, and then to the time that it needs.
pub proof fn law_known_lengths_are_limited<K>(
    content_length: Option<i64>,
    timeout_per_gb: Duration,
    scale: K,
    limit: Option<Duration>,
) where K: Fn(Duration, i64) -> Duration
    requires
        call_ensures(download_timeout::<K>, (content_length, timeout_per_gb, scale), limit),
    ensures
        limit is Some <==> content_length is Some,
        limit matches Some(timeout) ==> {
            &&& timeout.nanos >= 10_000_000_000
            &&& content_length->0 < 0 ==> timeout.nanos == 10_000_000_000
            &&& content_length->0 >= 0 ==> exists|scaled: Duration|
                {
                    &&& #[trigger] call_ensures(scale, (timeout_per_gb, content_length->0), scaled)
                    &&& timeout.nanos >= scaled.nanos
                    &&& timeout.nanos > 10_000_000_000 ==> timeout == scaled
                }
        },
{
}

/// Every length gets a timeout, provided that lengths that are not negative can be multiplied.
pub proof fn law_every_length_gets_a_timeout<K>(
    content_length: i64,
    timeout_per_gb: Duration,
    scale: K,
) where K: Fn(Duration, i64) -> Duration
    requires
        content_length < 0 || call_requires(scale, (timeout_per_gb, content_length)),
    ensures
        call_requires(content_length_timeout::<K>, (content_length, timeout_per_gb, scale)),
        call_requires(download_timeout::<K>, (Some(content_length), timeout_per_gb, scale)),
        call_requires(download_timeout::<K>, (None, timeout_per_gb, scale)),
{
}

} // verus!
