use rds_backend::output::{Origin, OutputLine, OutputRouter};

fn line(text: &str, at: u64) -> OutputLine {
    OutputLine { origin: Origin::Stdout, text: text.to_string(), observed_at: at }
}

fn texts(v: &[OutputLine]) -> Vec<String> {
    v.iter().map(|l| l.text.clone()).collect()
}

#[test]
fn every_sink_gets_every_line() {
    let mut r = OutputRouter::new();
    let a = r.register_sink(8);
    let b = r.register_sink(8);
    r.publish(&line("one", 1));
    r.publish(&OutputLine { origin: Origin::Stderr, text: "two".into(), observed_at: 2 });
    let got = r.take(a);
    assert_eq!(texts(&got), vec!["one", "two"]);
    assert_eq!(got[1].origin, Origin::Stderr);
    assert_eq!(got[1].observed_at, 2);
    assert_eq!(texts(&r.take(b)), vec!["one", "two"]);
    assert!(r.take(a).is_empty());
}

#[test]
fn full_sink_drops_oldest() {
    let mut r = OutputRouter::new();
    let s = r.register_sink(2);
    for (i, t) in ["a", "b", "c", "d"].iter().enumerate() {
        r.publish(&line(t, i as u64));
    }
    assert_eq!(texts(&r.take(s)), vec!["c", "d"]);
}

#[test]
fn late_sink_gets_no_replay() {
    let mut r = OutputRouter::new();
    let early = r.register_sink(4);
    r.publish(&line("before", 1));
    let late = r.register_sink(4);
    r.publish(&line("after", 2));
    assert_eq!(texts(&r.take(late)), vec!["after"]);
    assert_eq!(texts(&r.take(early)), vec!["before", "after"]);
}

#[test]
fn sink_without_room_keeps_nothing() {
    let mut r = OutputRouter::new();
    let s = r.register_sink(0);
    r.publish(&line("x", 1));
    assert!(r.take(s).is_empty());
    assert_eq!(r.sinks.len(), 1);
}
