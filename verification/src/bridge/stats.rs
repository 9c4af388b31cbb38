//! Traffic counters of the bridge, shared between threads without locks.
//!
//! The counters are atomics that other threads update at any time, so the
//! contracts here state nothing of the values read back. Turning byte counts
//! into rates (a floating-point division) is left to the caller, who gets the
//! counts through `take_rate_sample`.

use vstd::prelude::*;
use std::sync::atomic::AtomicU64;
use std::sync::atomic::Ordering;

verus! {

/// Traffic counters: bytes each way, the totals at the last rate
/// computation, when it happened, and the rates it gave (as `f64` bits).
pub struct Stats {
    tx_total: AtomicU64,
    rx_total: AtomicU64,
    tx_snapshot: AtomicU64,
    rx_snapshot: AtomicU64,
    last_calc_nanos: AtomicU64,
    tx_rate_bits: AtomicU64,
    rx_rate_bits: AtomicU64,
}

/// What a rate update found.
#[derive(Debug, Clone, Copy, PartialEq, Eq, Structural)]
pub enum RateSample {
    /// Too soon after the last update, or another thread claimed this one:
    /// the cached rates stand.
    Cached,
    /// Bytes moved each way over `elapsed_nanos` since the last update.
    Fresh { tx_bytes: u64, rx_bytes: u64, elapsed_nanos: u64 },
}

fn byte_count(bytes: usize) -> (n: u64)
    ensures
        n == bytes,
{
    bytes as u64
}

impl Stats {
    /// All counters at zero.
    pub fn new() -> Stats {
        Stats {
            tx_total: AtomicU64::new(0),
            rx_total: AtomicU64::new(0),
            tx_snapshot: AtomicU64::new(0),
            rx_snapshot: AtomicU64::new(0),
            last_calc_nanos: AtomicU64::new(0),
            tx_rate_bits: AtomicU64::new(0),
            rx_rate_bits: AtomicU64::new(0),
        }
    }

    /// Counts bytes sent towards the controller (wrapping on overflow).
    pub fn add_tx(&self, bytes: usize) {
        let n = byte_count(bytes);
        self.tx_total.fetch_add(n, Ordering::Relaxed);
    }

    /// Counts bytes received from the controller (wrapping on overflow).
    pub fn add_rx(&self, bytes: usize) {
        let n = byte_count(bytes);
        self.rx_total.fetch_add(n, Ordering::Relaxed);
    }

    /// Total bytes sent towards the controller.
    pub fn tx_bytes(&self) -> u64 {
        self.tx_total.load(Ordering::Relaxed)
    }

    /// Total bytes received from the controller.
    pub fn rx_bytes(&self) -> u64 {
        self.rx_total.load(Ordering::Relaxed)
    }

    /// Starts a rate update at `now_nanos` (time since the counters were
    /// created). Within `min_interval_nanos` of the last update, or when
    /// another thread claimed this update first, the cached rates stand;
    /// otherwise the bytes moved since the last update are returned and the
    /// snapshots move on.
    pub fn take_rate_sample(&self, now_nanos: u64, min_interval_nanos: u64) -> (r: RateSample)
        ensures
            r matches RateSample::Fresh { elapsed_nanos, .. } ==> elapsed_nanos >= min_interval_nanos,
    {
        let last = self.last_calc_nanos.load(Ordering::Relaxed);
        let elapsed = now_nanos.wrapping_sub(last);
        if elapsed < min_interval_nanos {
            return RateSample::Cached;
        }
        match self.last_calc_nanos.compare_exchange(
            last,
            now_nanos,
            Ordering::SeqCst,
            Ordering::Relaxed,
        ) {
            Err(_) => RateSample::Cached,
            Ok(_) => {
                let tx_now = self.tx_total.load(Ordering::Relaxed);
                let rx_now = self.rx_total.load(Ordering::Relaxed);
                let tx_prev = self.tx_snapshot.swap(tx_now, Ordering::Relaxed);
                let rx_prev = self.rx_snapshot.swap(rx_now, Ordering::Relaxed);
                RateSample::Fresh {
                    tx_bytes: tx_now.wrapping_sub(tx_prev),
                    rx_bytes: rx_now.wrapping_sub(rx_prev),
                    elapsed_nanos: elapsed,
                }
            },
        }
    }

    /// The rates cached by the last update, as `f64` bits (sent, received).
    pub fn cached_rate_bits(&self) -> (u64, u64) {
        (self.tx_rate_bits.load(Ordering::Relaxed), self.rx_rate_bits.load(Ordering::Relaxed))
    }

    /// Caches the rates of an update, as `f64` bits (sent, received).
    pub fn store_rate_bits(&self, tx_bits: u64, rx_bits: u64) {
        self.tx_rate_bits.store(tx_bits, Ordering::Relaxed);
        self.rx_rate_bits.store(rx_bits, Ordering::Relaxed);
    }
}

impl Default for Stats {
    fn default() -> Stats {
        Stats::new()
    }
}

} // verus!
