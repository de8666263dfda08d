use std::time::Duration;

use concentratord::jitqueue::{Queue, TxMode, TxPacket};
use concentratord::status::TxAckStatus;

#[derive(Copy, Clone)]
struct TxPacketMock {
    time_on_air: Duration,
    tx_mode: TxMode,
    count_us: u32,
}

impl TxPacket for TxPacketMock {
    fn spec_time_on_air(&self) -> Option<Duration> {
        Some(self.time_on_air)
    }

    fn spec_tx_mode(&self) -> TxMode {
        self.tx_mode
    }

    fn spec_count_us(&self) -> u32 {
        self.count_us
    }

    fn get_time_on_air(&self) -> anyhow::Result<Duration> {
        Ok(self.time_on_air)
    }

    fn get_tx_mode(&self) -> TxMode {
        self.tx_mode
    }

    fn get_id(&self) -> u32 {
        0
    }

    fn set_tx_mode(&mut self, tx_mode: TxMode) {
        self.tx_mode = tx_mode;
    }

    fn get_count_us(&self) -> u32 {
        return self.count_us;
    }

    fn set_count_us(&mut self, count_us: u32) {
        self.count_us = count_us;
    }
}

#[test]
fn jitqueue_test_size() {
    let q: Queue<TxPacketMock> = Queue::new(10);
    assert_eq!(10, q.size());
}

#[test]
fn jitqueue_test_enqueue_full() {
    let mut q: Queue<TxPacketMock> = Queue::new(2);

    q.enqueue(
        100,
        TxPacketMock {
            time_on_air: Duration::from_millis(100),
            tx_mode: TxMode::Immediate,
            count_us: 0,
        },
    )
    .unwrap();

    q.enqueue(
        100,
        TxPacketMock {
            time_on_air: Duration::from_millis(100),
            tx_mode: TxMode::Immediate,
            count_us: 0,
        },
    )
    .unwrap();

    assert!(
        q.enqueue(
            100,
            TxPacketMock {
                time_on_air: Duration::from_millis(100),
                tx_mode: TxMode::Immediate,
                count_us: 0,
            },
        )
        .is_err(),
        "jit queue should be full"
    );
}

#[test]
fn jitqueue_test_enqueue_immediate() {
    let mut q: Queue<TxPacketMock> = Queue::new(2);
    let concentrator_count = 100;

    q.enqueue(
        concentrator_count,
        TxPacketMock {
            time_on_air: Duration::from_millis(100),
            tx_mode: TxMode::Immediate,
            count_us: 0,
        },
    )
    .unwrap();

    q.enqueue(
        concentrator_count,
        TxPacketMock {
            time_on_air: Duration::from_millis(100),
            tx_mode: TxMode::Immediate,
            count_us: 0,
        },
    )
    .unwrap();

    // first item is schedule 1s after concentrator_count.
    let item = &q.items()[0];
    assert_eq!(TxMode::Timestamped, item.packet().get_tx_mode());
    assert_eq!(Duration::from_micros(1500 + 30000), item.pre_delay());
    assert_eq!(Duration::from_millis(100), item.post_delay());
    assert_eq!(
        concentrator_count + Duration::from_secs(1).as_micros() as u32,
        item.packet().get_count_us()
    );

    // second item is scheduled after 1st (taking into account the margins).
    let first_end_us = item.packet().get_count_us() + item.post_delay().as_micros() as u32;

    let item = &q.items()[1];
    assert_eq!(TxMode::Timestamped, item.packet().get_tx_mode());
    assert_eq!(Duration::from_micros(1500 + 30000), item.pre_delay());
    assert_eq!(Duration::from_millis(100), item.post_delay());
    assert_eq!(
        first_end_us + item.pre_delay().as_micros() as u32 + q.tx_margin_delay().as_micros() as u32,
        item.packet().get_count_us()
    );
}

#[test]
fn jitqueue_test_enqueue_immediate_u32_wrapping() {
    let mut q: Queue<TxPacketMock> = Queue::new(2);
    let concentrator_count = 0_u32.wrapping_sub(
        (Duration::from_secs(1) + Duration::from_micros(1500 + 30000) + Duration::from_millis(100))
            .as_micros() as u32,
    );

    q.enqueue(
        concentrator_count,
        TxPacketMock {
            time_on_air: Duration::from_millis(100),
            tx_mode: TxMode::Immediate,
            count_us: 0,
        },
    )
    .unwrap();

    q.enqueue(
        concentrator_count,
        TxPacketMock {
            time_on_air: Duration::from_millis(100),
            tx_mode: TxMode::Immediate,
            count_us: 0,
        },
    )
    .unwrap();

    let item = &q.items()[0];
    assert_eq!(4294835796, item.packet().get_count_us());

    let item = &q.items()[1];
    assert_eq!(1000, item.packet().get_count_us());
}

#[test]
fn jitqueue_test_pop_empty() {
    let mut q: Queue<TxPacketMock> = Queue::new(2);

    let item = q.pop(Duration::from_secs(1).as_micros() as u32);
    assert_eq!(true, item.is_none());
}

#[test]
fn jitqueue_test_pop() {
    let mut q: Queue<TxPacketMock> = Queue::new(2);
    let concentrator_count = Duration::from_secs(1).as_micros() as u32;

    q.enqueue(
        concentrator_count,
        TxPacketMock {
            time_on_air: Duration::from_millis(100),
            tx_mode: TxMode::Timestamped,
            count_us: Duration::from_secs(2).as_micros() as u32,
        },
    )
    .unwrap();

    let item = q.pop(Duration::from_secs(2).as_micros() as u32);
    assert_eq!(false, item.is_none());
}

#[test]
fn jitqueue_test_pop_too_far_in_future() {
    let mut q: Queue<TxPacketMock> = Queue::new(2);
    let concentrator_count = Duration::from_secs(1).as_micros() as u32;

    q.enqueue(
        concentrator_count,
        TxPacketMock {
            time_on_air: Duration::from_millis(100),
            tx_mode: TxMode::Timestamped,
            count_us: Duration::from_secs(2).as_micros() as u32,
        },
    )
    .unwrap();

    let item = q.pop(Duration::from_secs(1).as_micros() as u32);
    assert_eq!(true, item.is_none());
}

#[test]
fn jitqueue_test_pop_u32_wrapping() {
    let mut q: Queue<TxPacketMock> = Queue::new(2);
    let concentrator_count = 0_u32.wrapping_sub(Duration::from_secs(1).as_micros() as u32);

    q.enqueue(
        concentrator_count,
        TxPacketMock {
            time_on_air: Duration::from_millis(100),
            tx_mode: TxMode::Timestamped,
            count_us: 1,
        },
    )
    .unwrap();

    let item = q.pop(0_u32.wrapping_sub(100));
    assert_eq!(true, item.is_some());
}


fn timestamped(count_us: u32) -> TxPacketMock {
    TxPacketMock {
        time_on_air: Duration::from_millis(100),
        tx_mode: TxMode::Timestamped,
        count_us,
    }
}

#[test]
fn jitqueue_linear_count_after_rollover() {
    let mut q: Queue<TxPacketMock> = Queue::new(4);
    let before = u32::MAX - 499_999;
    // the counter rolls over between the two calls; the packet is 1.5 s ahead
    assert!(q.pop(before).is_none());
    q.enqueue(before, timestamped(1_000_000)).unwrap();
    assert_eq!(Duration::from_micros(1_500_000 + before as u64), q.items()[0].linear_count());
    assert!(q.pop(1_000_000 - 31_500).is_some());
}

#[test]
fn jitqueue_collision_and_lead_times() {
    let mut q: Queue<TxPacketMock> = Queue::new(4);
    q.enqueue(0, timestamped(1_000_000)).unwrap();
    assert_eq!(Err(TxAckStatus::CollisionPacket), q.enqueue(0, timestamped(1_050_000)));
    // later, with the first packet long gone: 32.5 ms is the least lead time,
    // 512 s the most
    let now = 10_000_000;
    assert_eq!(Err(TxAckStatus::TooLate), q.enqueue(now, timestamped(now + 32_499)));
    assert_eq!(Err(TxAckStatus::TooEarly), q.enqueue(now, timestamped(now + 512_000_001)));
    assert_eq!(Ok(()), q.enqueue(now, timestamped(now + 512_000_000)));
}

#[test]
fn jitqueue_pop_drops_a_packet_that_is_too_old() {
    let mut q: Queue<TxPacketMock> = Queue::new(4);
    q.enqueue(0, timestamped(1_000_000)).unwrap();
    // the packet's time has passed: it is dropped, and nothing is handed out
    assert!(q.pop(2_000_000).is_none());
    assert!(q.empty());
}

#[test]
fn jitqueue_immediate_after_running_transmission() {
    let mut q: Queue<TxPacketMock> = Queue::new(4);
    q.enqueue(0, timestamped(100_000)).unwrap();
    // hand the packet out: the concentrator is busy until 200 ms
    assert!(q.pop(100_000 - 31_500).is_some());
    // an immediate packet goes one second from now
    q.enqueue(
        100_000 - 31_500,
        TxPacketMock {
            time_on_air: Duration::from_millis(100),
            tx_mode: TxMode::Immediate,
            count_us: 0,
        },
    )
    .unwrap();
    assert_eq!(100_000 - 31_500 + 1_000_000, q.items()[0].packet().get_count_us());
}

#[test]
fn jitqueue_conversions_round_trip() {
    let mut q: Queue<TxPacketMock> = Queue::new(2);
    // move the counter close to its rollover
    assert!(q.pop(u32::MAX - 10).is_none());
    for c in [0u32, 5, u32::MAX - 10, u32::MAX] {
        let linear = q.concentrator_count_to_linear_count(c);
        assert_eq!(c, q.linear_count_to_concentrator_count(linear));
    }
    // a counter value past the rollover lies after the last linear time
    assert_eq!(
        q.concentrator_count_to_linear_count(u32::MAX - 10) + 11_000,
        q.concentrator_count_to_linear_count(0)
    );
}
