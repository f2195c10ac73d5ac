use oscilloscope::interval::{capture_interval, WINDOW_LEN};
use oscilloscope::plot::{Plot, PlotIngest};

fn ramp(n: usize) -> Vec<f32> {
    (0..n).map(|i| i as f32).collect()
}

fn pair(rate: u32) -> (Plot<f32>, PlotIngest<f32>) {
    Plot::new_and_receiver(rate)
}

#[test]
fn interval_at_cd_rate() {
    assert_eq!(capture_interval(44100), 735);
}

#[test]
fn interval_at_common_rates() {
    assert_eq!(capture_interval(48000), 800);
    assert_eq!(capture_interval(96000), 1600);
    assert_eq!(capture_interval(4_294_967_295), 71_582_788);
}

#[test]
fn interval_clamps_to_window() {
    assert_eq!(capture_interval(0), 512);
    assert_eq!(capture_interval(8000), 512);
    assert_eq!(capture_interval(22050), 512);
    assert_eq!(capture_interval(30719), 512);
    assert_eq!(capture_interval(30720), 512);
    assert_eq!(capture_interval(30780), 513);
}

#[test]
fn fresh_channel_reads_silence() {
    let (mut plot, ingest) = pair(44100);
    assert_eq!(plot.read_latest(), [0.0f32; 512]);
    assert_eq!(plot.read_latest(), [0.0f32; 512]);
    assert_eq!(ingest.interval(), 735);
    assert_eq!(ingest.clock(), 0);
    assert_eq!(ingest.buffered(), 0);
}

#[test]
fn nothing_published_before_window_fills() {
    let (mut plot, mut ingest) = pair(44100);
    ingest.process(&ramp(511));
    assert_eq!(plot.read_latest(), [0.0f32; 512]);
    assert_eq!(ingest.buffered(), 511);
    assert_eq!(ingest.clock(), 511);
}

#[test]
fn decimation_counts_and_contents() {
    let (mut plot, mut ingest) = pair(44100);
    let data = ramp(735 * 5 + 600);
    let mut last = plot.read_latest();
    let mut seen: Vec<[f32; 512]> = Vec::new();
    for chunk in data.chunks(1) {
        ingest.process(chunk);
        let now = plot.read_latest();
        if now != last {
            seen.push(now);
            last = now;
        }
    }
    // 4275 samples: five full cycles plus a sixth whose window is complete.
    assert_eq!(seen.len(), 6);
    for (k, w) in seen.iter().enumerate() {
        assert_eq!(&w[..], &data[k * 735..k * 735 + WINDOW_LEN]);
    }
    assert_eq!(ingest.clock(), 600);
    assert_eq!(ingest.buffered(), 0);
}

#[test]
fn decimation_without_trailing_window() {
    let (mut plot, mut ingest) = pair(44100);
    let data = ramp(735 * 3 + 100);
    let mut count = 0;
    let mut last = plot.read_latest();
    for x in data.iter() {
        ingest.process(&[*x]);
        let now = plot.read_latest();
        if now != last {
            count += 1;
            last = now;
        }
    }
    assert_eq!(count, 3);
    assert_eq!(&last[..], &data[2 * 735..2 * 735 + 512]);
    assert_eq!(ingest.buffered(), 100);
}

#[test]
fn second_window_starts_fresh() {
    let (mut plot, mut ingest) = pair(44100);
    let data = ramp(2 * 735);
    ingest.process(&data[..512]);
    assert_eq!(ingest.buffered(), 0);
    assert_eq!(&plot.read_latest()[..], &data[..512]);
    ingest.process(&data[512..]);
    assert_eq!(ingest.buffered(), 0);
    assert_eq!(ingest.clock(), 0);
    assert_eq!(&plot.read_latest()[..], &data[735..735 + 512]);
}

#[test]
fn second_window_in_one_call() {
    let (mut plot, mut ingest) = pair(44100);
    let data: Vec<f32> = (0..2 * 735).map(|i| ((i * 37) % 101) as f32 - 50.0).collect();
    ingest.process(&data);
    assert_eq!(&plot.read_latest()[..], &data[735..1247]);
}

#[test]
fn low_rate_cycles_back_to_back() {
    let (mut plot, mut ingest) = pair(8000);
    assert_eq!(ingest.interval(), 512);
    let data = ramp(512 * 3 + 100);
    let mut seen: Vec<[f32; 512]> = Vec::new();
    for chunk in data.chunks(64) {
        ingest.process(chunk);
        let w = plot.read_latest();
        if seen.last() != Some(&w) && w != [0.0f32; 512] {
            seen.push(w);
        }
    }
    assert_eq!(seen.len(), 3);
    let joined: Vec<f32> = seen.iter().flat_map(|w| w.iter().copied()).collect();
    assert_eq!(&joined[..], &data[..512 * 3]);
    assert_eq!(ingest.buffered(), 100);
    assert_eq!(ingest.clock(), 100);
}

#[test]
fn chunking_does_not_matter() {
    let data = ramp(3000);
    let (mut a, mut ia) = pair(48000);
    let (mut b, mut ib) = pair(48000);
    ia.process(&data);
    for chunk in data.chunks(7) {
        ib.process(chunk);
    }
    assert_eq!(a.read_latest(), b.read_latest());
    assert_eq!(ia.clock(), ib.clock());
    assert_eq!(ia.buffered(), ib.buffered());
    assert_eq!(ia.clock(), 3000 % 800);
}

#[test]
fn empty_chunk_changes_nothing() {
    let (mut plot, mut ingest) = pair(44100);
    ingest.process(&ramp(300));
    ingest.process(&[]);
    assert_eq!(ingest.clock(), 300);
    assert_eq!(ingest.buffered(), 300);
    assert_eq!(plot.read_latest(), [0.0f32; 512]);
}

#[test]
fn latest_window_wins() {
    let (mut plot, mut ingest) = pair(8000);
    let data = ramp(512 * 4);
    ingest.process(&data);
    // Three windows were overwritten without being read: only the last shows.
    assert_eq!(&plot.read_latest()[..], &data[512 * 3..]);
    assert_eq!(&plot.read_latest()[..], &data[512 * 3..]);
}

#[test]
fn samples_pass_through_unchanged() {
    let (mut plot, mut ingest) = pair(8000);
    let mut data = vec![0.25f32; 512];
    data[0] = f32::NAN;
    data[1] = 7.5;
    data[2] = -3.0;
    data[511] = f32::INFINITY;
    ingest.process(&data);
    let w = plot.read_latest();
    assert!(w[0].is_nan());
    assert_eq!(w[1], 7.5);
    assert_eq!(w[2], -3.0);
    assert_eq!(w[3], 0.25);
    assert_eq!(w[511], f32::INFINITY);
}
