use audio_capture::buffer::CaptureBuffer;
use audio_capture::normalizer::Sample;

fn counts(samples: &[Sample]) -> std::collections::HashMap<i64, usize> {
    let mut m = std::collections::HashMap::new();
    for s in samples {
        let key = match s {
            Sample::Fixed(n) => *n as i64,
            Sample::Bits(b) => 1_000_000_000 + *b as i64,
        };
        *m.entry(key).or_insert(0) += 1;
    }
    m
}

#[test]
fn drain_returns_pushes_in_order_and_empties() {
    let mut buf = CaptureBuffer::new();
    buf.push(Sample::Fixed(1));
    buf.push(Sample::Fixed(2));
    buf.push(Sample::Fixed(3));
    assert_eq!(buf.len(), 3);
    let out = buf.drain();
    assert_eq!(out, vec![Sample::Fixed(1), Sample::Fixed(2), Sample::Fixed(3)]);
    assert_eq!(buf.len(), 0);
    let empty = buf.drain();
    assert!(empty.is_empty());
}

#[test]
fn interleaved_pushes_and_drains_conserve_the_multiset() {
    // Buffer integrity: across an interleaving of pushes and drains, the
    // multiset drained plus what remains equals exactly the multiset pushed.
    let mut buf = CaptureBuffer::new();
    let mut pushed: Vec<Sample> = Vec::new();
    let mut drained: Vec<Sample> = Vec::new();

    let script: Vec<Option<i32>> = vec![
        Some(5),
        Some(5),
        None,
        Some(7),
        None,
        None,
        Some(1),
        Some(2),
        Some(2),
        None,
        Some(9),
    ];
    for step in script {
        match step {
            Some(v) => {
                buf.push(Sample::Fixed(v));
                pushed.push(Sample::Fixed(v));
            }
            None => {
                drained.extend(buf.drain());
            }
        }
    }
    let mut seen = drained.clone();
    seen.extend(buf.drain());
    assert_eq!(counts(&seen), counts(&pushed));
    // With the calls interleaved from one thread, delivery also preserves
    // the push order exactly.
    assert_eq!(seen, pushed);
}

#[test]
fn empty_drain_is_empty_not_an_error() {
    let mut buf = CaptureBuffer::new();
    assert!(buf.drain().is_empty());
}
