use std::time::Duration;

use concentratord::counter_queue::{EnqueueError, Queue, TxMode, TxPacket};

#[derive(Copy, Clone)]
struct TxPacketMock {
    time_on_air: Duration,
    tx_mode: TxMode,
    count_us: u32,
}

impl TxPacket for TxPacketMock {
    fn spec_time_on_air(&self) -> Result<Duration, String> {
        Ok(self.time_on_air)
    }

    fn spec_tx_mode(&self) -> TxMode {
        self.tx_mode
    }

    fn spec_count_us(&self) -> u32 {
        self.count_us
    }

    fn get_time_on_air(&self) -> Result<Duration, String> {
        return Ok(self.time_on_air);
    }

    fn get_tx_mode(&self) -> TxMode {
        return self.tx_mode;
    }

    fn get_id(&self) -> String {
        return "".to_string();
    }

    fn set_tx_mode(&mut self, tx_mode: TxMode) {
        self.tx_mode = tx_mode;
    }

    fn get_count_us(&self) -> u32 {
        return self.count_us;
    }

    fn set_count_us(&mut self, count_us: u32) {
        self.count_us = count_us;
    }
}

#[test]
fn lib_test_size() {
    let q: Queue<TxPacketMock> = Queue::new(10);
    assert_eq!(10, q.size());
}

#[test]
fn lib_test_enqueue_full() {
    let mut q: Queue<TxPacketMock> = Queue::new(2);

    q.enqueue(
        100,
        TxPacketMock {
            time_on_air: Duration::from_millis(100),
            tx_mode: TxMode::Immediate,
            count_us: 0,
        },
    )
    .unwrap();

    q.enqueue(
        100,
        TxPacketMock {
            time_on_air: Duration::from_millis(100),
            tx_mode: TxMode::Immediate,
            count_us: 0,
        },
    )
    .unwrap();

    assert!(
        q.enqueue(
            100,
            TxPacketMock {
                time_on_air: Duration::from_millis(100),
                tx_mode: TxMode::Immediate,
                count_us: 0,
            },
        )
        .is_err(),
        "jit queue should be full"
    );
}

#[test]
fn lib_test_enqueue_immediate() {
    let mut q: Queue<TxPacketMock> = Queue::new(2);
    let concentrator_count = 100;

    q.enqueue(
        concentrator_count,
        TxPacketMock {
            time_on_air: Duration::from_millis(100),
            tx_mode: TxMode::Immediate,
            count_us: 0,
        },
    )
    .unwrap();

    q.enqueue(
        concentrator_count,
        TxPacketMock {
            time_on_air: Duration::from_millis(100),
            tx_mode: TxMode::Immediate,
            count_us: 0,
        },
    )
    .unwrap();

    // first item is schedule 1s after concentrator_count.
    let item = &q.items()[0];
    assert_eq!(TxMode::Timestamped, item.packet().get_tx_mode());
    assert_eq!(Duration::from_micros(1500 + 30000), item.pre_delay());
    assert_eq!(Duration::from_millis(100), item.post_delay());
    assert_eq!(
        concentrator_count + Duration::from_secs(1).as_micros() as u32,
        item.packet().get_count_us()
    );

    // second item is scheduled after 1st (taking into account the margins).
    let first_end_us = item.packet().get_count_us() + item.post_delay().as_micros() as u32;

    let item = &q.items()[1];
    assert_eq!(TxMode::Timestamped, item.packet().get_tx_mode());
    assert_eq!(Duration::from_micros(1500 + 30000), item.pre_delay());
    assert_eq!(Duration::from_millis(100), item.post_delay());
    assert_eq!(
        first_end_us + item.pre_delay().as_micros() as u32 + q.tx_margin_delay().as_micros() as u32,
        item.packet().get_count_us()
    );
}

#[test]
fn lib_test_enqueue_immediate_u32_wrapping() {
    let mut q: Queue<TxPacketMock> = Queue::new(2);
    let concentrator_count = 0_u32.wrapping_sub(
        (Duration::from_secs(1) + Duration::from_micros(1500 + 30000) + Duration::from_millis(100))
            .as_micros() as u32,
    );

    q.enqueue(
        concentrator_count,
        TxPacketMock {
            time_on_air: Duration::from_millis(100),
            tx_mode: TxMode::Immediate,
            count_us: 0,
        },
    )
    .unwrap();

    q.enqueue(
        concentrator_count,
        TxPacketMock {
            time_on_air: Duration::from_millis(100),
            tx_mode: TxMode::Immediate,
            count_us: 0,
        },
    )
    .unwrap();

    let item = &q.items()[0];
    assert_eq!(4294835796, item.packet().get_count_us());

    let item = &q.items()[1];
    assert_eq!(1000, item.packet().get_count_us());
}

#[test]
fn lib_test_pop_empty() {
    let mut q: Queue<TxPacketMock> = Queue::new(2);

    let item = q.pop(Duration::from_secs(1).as_micros() as u32);
    assert_eq!(true, item.is_none());
}

#[test]
fn lib_test_pop() {
    let mut q: Queue<TxPacketMock> = Queue::new(2);
    let concentrator_count = Duration::from_secs(1).as_micros() as u32;

    q.enqueue(
        concentrator_count,
        TxPacketMock {
            time_on_air: Duration::from_millis(100),
            tx_mode: TxMode::Timestamped,
            count_us: Duration::from_secs(2).as_micros() as u32,
        },
    )
    .unwrap();

    let item = q.pop(Duration::from_secs(2).as_micros() as u32);
    assert_eq!(false, item.is_none());
}

#[test]
fn lib_test_pop_too_far_in_future() {
    let mut q: Queue<TxPacketMock> = Queue::new(2);
    let concentrator_count = Duration::from_secs(1).as_micros() as u32;

    q.enqueue(
        concentrator_count,
        TxPacketMock {
            time_on_air: Duration::from_millis(100),
            tx_mode: TxMode::Timestamped,
            count_us: Duration::from_secs(2).as_micros() as u32,
        },
    )
    .unwrap();

    let item = q.pop(Duration::from_secs(1).as_micros() as u32);
    assert_eq!(true, item.is_none());
}

#[test]
fn lib_test_pop_u32_wrapping() {
    let mut q: Queue<TxPacketMock> = Queue::new(2);
    let concentrator_count = 0_u32.wrapping_sub(Duration::from_secs(1).as_micros() as u32);

    q.enqueue(
        concentrator_count,
        TxPacketMock {
            time_on_air: Duration::from_millis(100),
            tx_mode: TxMode::Timestamped,
            count_us: 1,
        },
    )
    .unwrap();

    let item = q.pop(0_u32.wrapping_sub(100));
    assert_eq!(true, item.is_some());
}

fn timestamped(count_us: u32) -> TxPacketMock {
    TxPacketMock {
        time_on_air: Duration::from_millis(100),
        tx_mode: TxMode::Timestamped,
        count_us,
    }
}

#[test]
fn counter_queue_timestamped_collision() {
    let mut q: Queue<TxPacketMock> = Queue::new(4);
    q.enqueue(0, timestamped(1_000_000)).unwrap();
    // starts 50 ms after the first packet starts: within its 100 ms time on air
    assert_eq!(Err(EnqueueError::Collision), q.enqueue(0, timestamped(1_050_000)));
    // time on air, pre-delay and margin after it still collide; one more microsecond does not
    assert_eq!(Err(EnqueueError::Collision), q.enqueue(0, timestamped(1_000_000 + 100_000 + 31_500 + 1_000)));
    assert_eq!(Ok(()), q.enqueue(0, timestamped(1_000_000 + 100_000 + 31_500 + 1_001)));
    assert_eq!(2, q.items().len());
}

#[test]
fn counter_queue_too_late_and_too_early() {
    let mut q: Queue<TxPacketMock> = Queue::new(4);
    // 32.5 ms is the least lead time
    assert_eq!(Err(EnqueueError::TooLate), q.enqueue(0, timestamped(32_499)));
    assert_eq!(Ok(()), q.enqueue(0, timestamped(32_500)));
    // 512 s is the most
    assert_eq!(Err(EnqueueError::TooEarly), q.enqueue(0, timestamped(512_000_001)));
    assert_eq!(Ok(()), q.enqueue(0, timestamped(512_000_000)));
}

#[test]
fn counter_queue_on_gps_is_unknown() {
    let mut q: Queue<TxPacketMock> = Queue::new(4);
    let r = q.enqueue(
        0,
        TxPacketMock {
            time_on_air: Duration::from_millis(100),
            tx_mode: TxMode::OnGPS,
            count_us: 1_000_000,
        },
    );
    assert_eq!(Err(EnqueueError::Unknown("TODO".to_string())), r);
    assert!(q.empty());
}

#[test]
fn counter_queue_sorted_by_distance_ahead() {
    let mut q: Queue<TxPacketMock> = Queue::new(4);
    let now = u32::MAX - 1_000_000;
    // after the roll-over of the counter, but sooner than the packet before it
    q.enqueue(now, timestamped(now.wrapping_add(3_000_000))).unwrap();
    q.enqueue(now, timestamped(now.wrapping_add(2_000_000))).unwrap();
    q.enqueue(now, timestamped(now.wrapping_add(500_000))).unwrap();
    let counts: Vec<u32> = q.items().iter().map(|i| i.packet().get_count_us()).collect();
    assert_eq!(
        vec![now.wrapping_add(500_000), now.wrapping_add(2_000_000), now.wrapping_add(3_000_000)],
        counts
    );
}

#[test]
fn counter_queue_long_time_on_air_in_an_empty_queue() {
    let mut q: Queue<TxPacketMock> = Queue::new(2);
    // two hours on air: more than the counter holds, taken as the queue is empty
    let long = TxPacketMock {
        time_on_air: Duration::from_secs(7200),
        tx_mode: TxMode::Immediate,
        count_us: 0,
    };
    assert_eq!(Ok(()), q.enqueue(0, long));
    assert_eq!(1_000_000, q.items()[0].packet().get_count_us());

    // the collision test takes that time on air cut to 32 bits (2_905_032_704 µs)
    let next = TxPacketMock {
        time_on_air: Duration::from_millis(100),
        tx_mode: TxMode::Timestamped,
        count_us: 100_000_000,
    };
    assert_eq!(Err(EnqueueError::Collision), q.enqueue(0, next));
}

#[test]
fn counter_queue_accepted_enqueue_adds_one_entry() {
    let mut q: Queue<TxPacketMock> = Queue::new(3);
    let first = TxPacketMock { time_on_air: Duration::from_millis(100), tx_mode: TxMode::Timestamped, count_us: 3_000_000 };
    let second = TxPacketMock { time_on_air: Duration::from_millis(100), tx_mode: TxMode::Timestamped, count_us: 2_000_000 };
    assert_eq!(Ok(()), q.enqueue(0, first));
    assert_eq!(Ok(()), q.enqueue(0, second));
    let counts: Vec<u32> = q.items().iter().map(|i| i.packet().get_count_us()).collect();
    assert_eq!(vec![2_000_000, 3_000_000], counts);
    // a refused packet leaves the queue as it was
    assert_eq!(Err(EnqueueError::Collision), q.enqueue(0, second));
    assert_eq!(2, q.items().len());
}
