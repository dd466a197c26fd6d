use frappe::{
    accepts_generation, split_route, Graph, Receiver, Sampled, Signal, SignalAny, SignalConst,
    SignalFn, Sink, SplitAction, Stream,
};
use std::cell::Cell;
use std::rc::Rc;

type Op = Box<dyn Fn(&i64) -> Option<i64>>;
type Acc = Box<dyn Fn(i64, &i64) -> i64>;
type Exp = Box<dyn Fn(&i64) -> Vec<i64>>;
type G = Graph<i64, Op, Acc, Exp>;

fn op(f: impl Fn(&i64) -> Option<i64> + 'static) -> Op {
    Box::new(f)
}

fn acc(f: impl Fn(i64, &i64) -> i64 + 'static) -> Acc {
    Box::new(f)
}

fn drain(g: &mut G, rx: &Receiver) -> Vec<i64> {
    rx.try_iter(g)
}

#[test]
fn chain_of_map_and_filter_delivers_once_per_send() {
    let mut g: G = Graph::new();
    let sink = Sink::new(&mut g);
    let s = sink.stream(&mut g);
    let all = s.channel(&mut g);
    let mapped = s.map(&mut g, op(|x| Some(x + 1)));
    let even = mapped.filter(&mut g, op(|x| if x % 2 == 0 { Some(*x) } else { None }));
    let halved = even.filter_map(&mut g, op(|x| if *x > 2 { Some(x / 2) } else { None }));
    let rx_mapped = mapped.channel(&mut g);
    let rx_even = even.channel(&mut g);
    let rx_halved = halved.channel(&mut g);
    for v in [1, 2, 3, 5] {
        sink.send(&mut g, v);
    }
    assert_eq!(drain(&mut g, &all), vec![1, 2, 3, 5]);
    assert_eq!(drain(&mut g, &rx_mapped), vec![2, 3, 4, 6]);
    assert_eq!(drain(&mut g, &rx_even), vec![2, 4, 6]);
    assert_eq!(drain(&mut g, &rx_halved), vec![2, 3]);
    assert_eq!(drain(&mut g, &all), Vec::<i64>::new());
}

#[test]
fn feed_sends_in_order() {
    let mut g: G = Graph::new();
    let sink = Sink::new(&mut g);
    let rx = sink.stream(&mut g).channel(&mut g);
    sink.feed(&mut g, vec![4, 5, 6]);
    sink.feed(&mut g, vec![]);
    assert_eq!(drain(&mut g, &rx), vec![4, 5, 6]);
}

#[test]
fn merge_forwards_both_sides_in_send_order() {
    let mut g: G = Graph::new();
    let a = Sink::new(&mut g);
    let b = Sink::new(&mut g);
    let sa = a.stream(&mut g);
    let sb = b.stream(&mut g);
    let merged = sa.merge(&mut g, &sb);
    let rx = merged.channel(&mut g);
    a.send(&mut g, 1);
    a.send(&mut g, 2);
    assert_eq!(drain(&mut g, &rx), vec![1, 2]);
    b.send(&mut g, 3);
    assert_eq!(drain(&mut g, &rx), vec![3]);
    a.send(&mut g, 4);
    b.send(&mut g, 5);
    a.send(&mut g, 6);
    assert_eq!(drain(&mut g, &rx), vec![4, 5, 6]);
}

#[test]
fn released_merge_stops_delivering() {
    let mut g: G = Graph::new();
    let a = Sink::new(&mut g);
    let b = Sink::new(&mut g);
    let sa = a.stream(&mut g);
    let sb = b.stream(&mut g);
    let merged = sa.merge(&mut g, &sb);
    let count = Rc::new(Cell::new(0));
    let seen = count.clone();
    let merged = merged.inspect(&mut g, op(move |_| {
        seen.set(seen.get() + 1);
        None
    }));
    a.send(&mut g, 1);
    assert_eq!(count.get(), 1);
    assert_eq!(g.edges[a.id].len(), 1);
    merged.release(&mut g);
    a.send(&mut g, 2);
    b.send(&mut g, 3);
    assert_eq!(count.get(), 1);
    assert_eq!(g.edges[a.id].len(), 0);
    assert_eq!(g.edges[b.id].len(), 0);
}

#[test]
fn switch_follows_only_the_latest_inner_stream() {
    let mut g: G = Graph::new();
    let outer = Sink::new(&mut g);
    let s1 = Sink::new(&mut g);
    let s2 = Sink::new(&mut g);
    let switched = outer.stream(&mut g).switch(&mut g);
    let rx = switched.channel(&mut g);
    let i1 = s1.stream(&mut g);
    let i2 = s2.stream(&mut g);
    outer.send_stream(&mut g, &i1);
    outer.send_stream(&mut g, &i2);
    s1.send(&mut g, 10);
    s2.send(&mut g, 20);
    s1.send(&mut g, 11);
    assert_eq!(drain(&mut g, &rx), vec![20]);
    assert_eq!(g.edges[s1.id].len(), 0);
    assert_eq!(g.edges[s2.id].len(), 1);
}

#[test]
fn switch_takes_effect_from_the_next_event() {
    let mut g: G = Graph::new();
    let outer = Sink::new(&mut g);
    let s1 = Sink::new(&mut g);
    let s2 = Sink::new(&mut g);
    let switched = outer.stream(&mut g).switch(&mut g);
    let rx = switched.channel(&mut g);
    let i1 = s1.stream(&mut g);
    let i2 = s2.stream(&mut g);
    outer.send_stream(&mut g, &i1);
    s1.send(&mut g, 1);
    s2.send(&mut g, 2);
    outer.send_stream(&mut g, &i2);
    s1.send(&mut g, 3);
    s2.send(&mut g, 4);
    assert_eq!(drain(&mut g, &rx), vec![1, 4]);
}

fn sign_split(g: &mut G, s: &Stream, calls: Rc<Cell<u32>>) -> (Stream, Stream) {
    s.split(
        g,
        op(move |x| {
            calls.set(calls.get() + 1);
            if *x >= 0 { Some(*x) } else { None }
        }),
        op(|x| if *x < 0 { Some(-x) } else { None }),
    )
}

#[test]
fn split_routes_each_variant_to_its_output() {
    let mut g: G = Graph::new();
    let sink = Sink::new(&mut g);
    let s = sink.stream(&mut g);
    let (pos, neg) = sign_split(&mut g, &s, Rc::new(Cell::new(0)));
    let rx_pos = pos.channel(&mut g);
    let rx_neg = neg.channel(&mut g);
    sink.feed(&mut g, vec![3, -4, 0, -1]);
    assert_eq!(drain(&mut g, &rx_pos), vec![3, 0]);
    assert_eq!(drain(&mut g, &rx_neg), vec![4, 1]);
}

#[test]
fn split_survives_one_dropped_output_and_stops_after_both() {
    let mut g: G = Graph::new();
    let sink = Sink::new(&mut g);
    let s = sink.stream(&mut g);
    let calls = Rc::new(Cell::new(0));
    let (pos, neg) = sign_split(&mut g, &s, calls.clone());
    let rx_pos = pos.channel(&mut g);
    neg.release(&mut g);
    sink.feed(&mut g, vec![-1, 5]);
    assert_eq!(drain(&mut g, &rx_pos), vec![5]);
    assert_eq!(g.edges[s.id].len(), 1);
    assert_eq!(calls.get(), 2);
    pos.release(&mut g);
    sink.send(&mut g, 7);
    sink.send(&mut g, 8);
    assert_eq!(calls.get(), 2);
    assert_eq!(g.edges[s.id].len(), 0);
}

#[test]
fn filter_first_second_and_some() {
    let mut g: G = Graph::new();
    let sink = Sink::new(&mut g);
    let s = sink.stream(&mut g);
    let first = s.filter_first(&mut g, op(|x| if *x >= 0 { Some(*x) } else { None }));
    let second = s.filter_second(&mut g, op(|x| if *x < 0 { Some(-x) } else { None }));
    let some = s.filter_some(&mut g, op(|x| if *x != 0 { Some(*x) } else { None }));
    let (r1, r2, r3) = (first.channel(&mut g), second.channel(&mut g), some.channel(&mut g));
    sink.feed(&mut g, vec![2, -3, 0]);
    assert_eq!(drain(&mut g, &r1), vec![2, 0]);
    assert_eq!(drain(&mut g, &r2), vec![3]);
    assert_eq!(drain(&mut g, &r3), vec![2, -3]);
}

#[test]
fn fold_sums_and_hold_keeps_last() {
    let mut g: G = Graph::new();
    let sink = Sink::new(&mut g);
    let s = sink.stream(&mut g);
    let sum = s.fold(&mut g, 0, acc(|a, x| a + x));
    let last = s.hold(&mut g, 0);
    assert_eq!(sum.sample(&mut g), 0);
    assert_eq!(last.sample(&mut g), 0);
    sink.feed(&mut g, vec![1, 2, 3]);
    assert_eq!(sum.sample(&mut g), 6);
    let other = Sink::new(&mut g);
    let held = other.stream(&mut g).hold(&mut g, 0);
    other.feed(&mut g, vec![5, 9]);
    assert_eq!(held.sample(&mut g), 9);
    assert_eq!(last.sample(&mut g), 3);
}

#[test]
fn hold_if_keeps_last_accepted() {
    let mut g: G = Graph::new();
    let sink = Sink::new(&mut g);
    let held = sink
        .stream(&mut g)
        .hold_if(&mut g, -1, op(|x| if *x > 10 { Some(*x) } else { None }));
    sink.feed(&mut g, vec![12, 3, 40, 7]);
    assert_eq!(held.sample(&mut g), 40);
}

#[test]
fn released_signal_prunes_its_subscription() {
    let mut g: G = Graph::new();
    let sink = Sink::new(&mut g);
    let s = sink.stream(&mut g);
    let held = s.hold(&mut g, 0);
    assert_eq!(g.edges[s.id].len(), 1);
    held.release(&mut g);
    sink.send(&mut g, 1);
    assert_eq!(g.edges[s.id].len(), 0);
}

#[test]
fn from_channel_keeps_last_and_fold_channel_folds() {
    let mut g: G = Graph::new();
    let sink = Sink::new(&mut g);
    let s = sink.stream(&mut g);
    let rx1 = s.channel(&mut g);
    let rx2 = s.channel(&mut g);
    let last = Signal::from_channel(&mut g, 0, rx1);
    let total = Signal::fold_channel(&mut g, 100, rx2, acc(|a, x| a + x));
    sink.feed(&mut g, vec![1, 2, 3]);
    assert_eq!(last.sample(&mut g), 3);
    assert_eq!(total.sample(&mut g), 106);
    assert_eq!(last.sample(&mut g), 3);
    assert_eq!(total.sample(&mut g), 106);
    sink.send(&mut g, 4);
    assert_eq!(total.sample(&mut g), 110);
    assert_eq!(last.sample(&mut g), 4);
}

#[test]
fn from_channel_without_items_returns_initial() {
    let mut g: G = Graph::new();
    let sink = Sink::new(&mut g);
    let rx = sink.stream(&mut g).channel(&mut g);
    let last = Signal::from_channel(&mut g, 7, rx);
    assert_eq!(last.sample(&mut g), 7);
}

#[test]
fn snapshot_captures_the_value_at_fire_time() {
    let mut g: G = Graph::new();
    let values = Sink::new(&mut g);
    let trigger = Sink::new(&mut g);
    let held = values.stream(&mut g).hold(&mut g, 10);
    let t = trigger.stream(&mut g);
    let snap = held.snapshot(&mut g, &t, acc(|a, b| a * 100 + b));
    let rx = snap.channel(&mut g);
    trigger.send(&mut g, 1);
    values.send(&mut g, 20);
    assert_eq!(drain(&mut g, &rx), vec![1001]);
    trigger.send(&mut g, 2);
    assert_eq!(drain(&mut g, &rx), vec![2002]);
}

#[test]
fn closed_receiver_is_pruned() {
    let mut g: G = Graph::new();
    let sink = Sink::new(&mut g);
    let s = sink.stream(&mut g);
    let rx = s.channel(&mut g);
    sink.send(&mut g, 1);
    rx.close(&mut g);
    sink.send(&mut g, 2);
    assert_eq!(g.edges[s.id].len(), 0);
    assert_eq!(g.queues[rx.queue], vec![1]);
}

#[test]
fn released_sink_keeps_its_streams() {
    let mut g: G = Graph::new();
    let sink = Sink::new(&mut g);
    let s = sink.stream(&mut g);
    let rx = s.channel(&mut g);
    sink.send(&mut g, 5);
    sink.release(&mut g);
    assert!(g.is_alive(s.id));
    assert_eq!(g.edges[s.id].len(), 1);
    assert_eq!(drain(&mut g, &rx), vec![5]);
}

#[test]
fn merge_with_tags_each_side() {
    let mut g: G = Graph::new();
    let a = Sink::new(&mut g);
    let b = Sink::new(&mut g);
    let sa = a.stream(&mut g);
    let sb = b.stream(&mut g);
    let merged = sa.merge_with(&mut g, &sb, op(|x| Some(x * 10)), op(|x| if *x > 0 { Some(-x) } else { None }));
    let rx = merged.channel(&mut g);
    a.send(&mut g, 1);
    b.send(&mut g, 2);
    b.send(&mut g, -3);
    a.send(&mut g, 4);
    assert_eq!(drain(&mut g, &rx), vec![10, -2, 40]);
}

#[test]
fn release_cascades_to_sources() {
    let mut g: G = Graph::new();
    let sink = Sink::new(&mut g);
    let s = sink.stream(&mut g);
    let m = s.map(&mut g, op(|x| Some(x * 3)));
    let rx = m.channel(&mut g);
    sink.release(&mut g);
    s.release(&mut g);
    assert!(g.is_alive(s.id));
    sink.send(&mut g, 2);
    assert_eq!(drain(&mut g, &rx), vec![6]);
    m.release(&mut g);
    assert!(!g.is_alive(m.id));
    assert!(!g.is_alive(s.id));
}

#[test]
fn into_inner_gives_the_cell() {
    let mut g: G = Graph::new();
    let sink = Sink::new(&mut g);
    let held = sink.stream(&mut g).hold(&mut g, 3);
    let cell = held.into_inner(&mut g);
    assert_eq!(g.cells[cell], 3);
}

#[test]
fn constant_signals() {
    let mut g: G = Graph::new();
    assert_eq!(Signal::Constant(5).sample(&mut g), 5);
    assert_eq!(SignalConst(8).sample(), 8);
    let any: SignalAny<i64, fn() -> i64> = SignalAny::constant(9);
    assert_eq!(any.sample(), 9);
    let dynamic: SignalAny<i64, _> = SignalAny::from_fn(|| 4);
    assert_eq!(dynamic.sample(), 4);
    assert_eq!(SignalFn::new(|| 11).sample(), 11);
}

#[test]
fn nested_and_mapped_signals() {
    let inner = Signal::constant(6);
    let outer = Signal::from_fn(move || inner);
    let flat = outer.switch();
    assert_eq!(flat.sample(), 6);
    let base = Signal::constant(7);
    let mapped = base.map(|x| x + 1);
    assert_eq!(mapped.sample(), 8);
    assert_eq!(mapped.sample_with(|x| x * 2), 16);
}

#[test]
fn split_route_decisions() {
    assert_eq!(split_route(true, true, false), SplitAction::ToFirst);
    assert_eq!(split_route(false, false, true), SplitAction::ToSecond);
    assert_eq!(split_route(true, false, true), SplitAction::Skip);
    assert_eq!(split_route(false, true, false), SplitAction::Skip);
    assert_eq!(split_route(true, false, false), SplitAction::Drop);
    assert_eq!(split_route(false, false, false), SplitAction::Drop);
}

#[test]
fn generation_check() {
    assert!(accepts_generation(3, 3));
    assert!(!accepts_generation(2, 3));
}

#[test]
fn merge_with_itself_doubles_each_event() {
    let mut g: G = Graph::new();
    let sink = Sink::new(&mut g);
    let s = sink.stream(&mut g);
    let twice = s.merge(&mut g, &s);
    let rx = twice.channel(&mut g);
    sink.feed(&mut g, vec![1, 2]);
    assert_eq!(drain(&mut g, &rx), vec![1, 1, 2, 2]);
}

#[test]
fn snapshot_takes_in_a_channel_fed_signal() {
    let mut g: G = Graph::new();
    let values = Sink::new(&mut g);
    let trigger = Sink::new(&mut g);
    let rx_values = values.stream(&mut g).channel(&mut g);
    let last = Signal::from_channel(&mut g, 0, rx_values);
    let t = trigger.stream(&mut g);
    let snap = last.snapshot(&mut g, &t, acc(|a, b| a * 10 + b));
    let rx = snap.channel(&mut g);
    values.feed(&mut g, vec![3, 4]);
    trigger.send(&mut g, 1);
    assert_eq!(drain(&mut g, &rx), vec![41]);
    assert_eq!(last.sample(&mut g), 4);
}

#[test]
fn shared_sample_with() {
    let mut g: G = Graph::new();
    let sink = Sink::new(&mut g);
    let held = sink.stream(&mut g).hold(&mut g, 2);
    sink.send(&mut g, 7);
    assert_eq!(held.sample_with(&mut g, |x| x * 3), 21);
}

#[test]
fn map_n_sends_zero_or_more_outputs_per_event() {
    let mut g: G = Graph::new();
    let sink = Sink::new(&mut g);
    let s = sink.stream(&mut g);
    let expand: Exp = Box::new(|x| if *x == 0 { vec![] } else { vec![*x, x * 10] });
    let many = s.map_n(&mut g, expand);
    let rx = many.channel(&mut g);
    sink.feed(&mut g, vec![1, 0, 2]);
    assert_eq!(drain(&mut g, &rx), vec![1, 10, 2, 20]);
}

#[test]
fn mapped_shared_signal_and_enum_sample_with() {
    let mut g: G = Graph::new();
    let sink = Sink::new(&mut g);
    let held = sink.stream(&mut g).hold(&mut g, 1);
    let doubled = held.map(|x: &i64| x * 2);
    assert_eq!(doubled.sample(&mut g), 2);
    sink.send(&mut g, 8);
    assert_eq!(doubled.sample(&mut g), 16);
    assert_eq!(Signal::Shared(held).sample_with(&mut g, |x| x + 1), 9);
    assert_eq!(Signal::Constant(4).sample_with(&mut g, |x| x * 5), 20);
}
