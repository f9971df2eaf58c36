use termfmt::{Color, Format, FormatFlag, Formats, SystemColor};

fn bold_red() -> Format {
    let mut f = Format::default();
    f.set(FormatFlag::Bold, true).set_fg(Color::System(SystemColor::Red));
    f
}

fn italic() -> Format {
    let mut f = Format::default();
    f.set(FormatFlag::Italic, true);
    f
}

fn offsets(fmt: &Formats) -> Vec<usize> {
    let mut copy = fmt.clone();
    let mut out = Vec::new();
    while let Some((o, _)) = copy.pop() {
        out.push(o);
    }
    out.push(0);
    out.reverse();
    out
}

#[test]
fn lookup() {
    let fmt = Formats::default();
    assert_eq!(fmt.lookup(0), (0usize, &Format::default()));
    assert_eq!(fmt.lookup(1), (0usize, &Format::default()));
}

#[test]
fn set_lookup_and_coalesce_back() {
    let mut fmt = Formats::default();
    assert_eq!(fmt.lookup(0), (0usize, &Format::default()));
    assert_eq!(fmt.lookup(5), (0usize, &Format::default()));
    fmt.set(5, bold_red());
    assert_eq!(fmt.lookup(5), (5usize, &bold_red()));
    assert_eq!(fmt.lookup(4), (0usize, &Format::default()));
    assert_eq!(fmt.lookup(100), (5usize, &bold_red()));
    fmt.set(5, Format::default());
    assert_eq!(fmt.lookup(100), (0usize, &Format::default()));
    assert_eq!(offsets(&fmt), vec![0]);
}

#[test]
fn lookup_finds_covering_run() {
    let mut fmt = Formats::default();
    fmt.set(10, bold_red()).set(20, italic()).set(30, Format::default()).set(40, bold_red());
    assert_eq!(offsets(&fmt), vec![0, 10, 20, 30, 40]);
    assert_eq!(fmt.lookup(0), (0usize, &Format::default()));
    assert_eq!(fmt.lookup(9), (0usize, &Format::default()));
    assert_eq!(fmt.lookup(10), (10usize, &bold_red()));
    assert_eq!(fmt.lookup(19), (10usize, &bold_red()));
    assert_eq!(fmt.lookup(25), (20usize, &italic()));
    assert_eq!(fmt.lookup(30), (30usize, &Format::default()));
    assert_eq!(fmt.lookup(39), (30usize, &Format::default()));
    assert_eq!(fmt.lookup(usize::MAX), (40usize, &bold_red()));
}

#[test]
fn set_inserts_in_the_middle_in_order() {
    let mut fmt = Formats::default();
    fmt.set(30, bold_red());
    fmt.set(10, italic());
    fmt.set(20, bold_red());
    assert_eq!(offsets(&fmt), vec![0, 10, 20, 30]);
    assert_eq!(fmt.lookup(15), (10usize, &italic()));
    assert_eq!(fmt.lookup(25), (20usize, &bold_red()));
}

#[test]
fn set_equal_to_covering_run_adds_nothing() {
    let mut fmt = Formats::default();
    fmt.set(10, bold_red());
    fmt.set(15, bold_red());
    assert_eq!(offsets(&fmt), vec![0, 10]);
    fmt.set(3, Format::default());
    assert_eq!(offsets(&fmt), vec![0, 10]);
}

#[test]
fn successor_is_not_compared() {
    let mut fmt = Formats::default();
    fmt.set(10, bold_red());
    fmt.set(5, bold_red());
    assert_eq!(offsets(&fmt), vec![0, 5, 10]);
    assert_eq!(fmt.lookup(7), (5usize, &bold_red()));
    assert_eq!(fmt.lookup(12), (10usize, &bold_red()));
}

#[test]
fn set_at_zero_overwrites_first() {
    let mut fmt = Formats::default();
    fmt.set(0, italic());
    assert_eq!(fmt.first(), &italic());
    assert_eq!(fmt.lookup(50), (0usize, &italic()));
    assert_eq!(offsets(&fmt), vec![0]);
}

#[test]
fn set_twice_is_set_once() {
    let mut once = Formats::default();
    once.set(10, bold_red()).set(20, italic());
    let mut twice = once.clone();
    once.set(15, Format::default());
    twice.set(15, Format::default()).set(15, Format::default());
    assert_eq!(offsets(&once), offsets(&twice));
    for q in [0usize, 10, 14, 15, 16, 20, 99] {
        assert_eq!(once.lookup(q), twice.lookup(q));
    }
    once.set(20, bold_red());
    twice.set(20, bold_red()).set(20, bold_red());
    assert_eq!(offsets(&once), vec![0, 10, 15, 20]);
    assert_eq!(offsets(&twice), vec![0, 10, 15, 20]);
    assert_eq!(once.lookup(25), (20usize, &bold_red()));
    assert_eq!(twice.lookup(25), (20usize, &bold_red()));
}

#[test]
fn pop_then_set_restores() {
    let mut fmt = Formats::default();
    fmt.set(10, bold_red()).set(20, italic());
    let (o, f) = fmt.pop().unwrap();
    assert_eq!((o, &f), (20usize, &italic()));
    assert_eq!(fmt.last(), (10usize, &bold_red()));
    fmt.set(o, f);
    assert_eq!(offsets(&fmt), vec![0, 10, 20]);
    assert_eq!(fmt.last(), (20usize, &italic()));
}

#[test]
fn pop_on_single_entry_is_none() {
    let mut fmt = Formats::default();
    assert_eq!(fmt.pop(), None);
    assert_eq!(fmt.last(), (0usize, &Format::default()));
}

#[test]
fn offsets_stay_increasing() {
    let mut fmt = Formats::default();
    for (o, f) in [(7usize, italic()), (3, bold_red()), (9, Format::default()), (5, italic())] {
        fmt.set(o, f);
    }
    fmt.pop();
    fmt.set(1, bold_red());
    let seen = offsets(&fmt);
    assert_eq!(seen[0], 0);
    for w in seen.windows(2) {
        assert!(w[0] < w[1]);
    }
    assert_eq!(seen, vec![0, 1, 3, 5, 7]);
}

#[test]
fn neighbours_differ_after_appends() {
    let mut fmt = Formats::default();
    for (o, f) in [(2usize, italic()), (4, italic()), (6, bold_red()), (8, bold_red()), (10, italic())] {
        fmt.set(o, f);
    }
    assert_eq!(offsets(&fmt), vec![0, 2, 6, 10]);
    let mut prev = fmt.lookup(0).1.clone();
    for o in [2usize, 6, 10] {
        let cur = fmt.lookup(o).1.clone();
        assert_ne!(prev, cur);
        prev = cur;
    }
}

#[test]
fn mutable_access_changes_in_place() {
    let mut fmt = Formats::default();
    fmt.set(10, bold_red());
    fmt.first_mut().set(FormatFlag::Monospace, true);
    assert!(fmt.lookup(5).1.is(FormatFlag::Monospace));
    let (o, last) = fmt.last_mut();
    assert_eq!(o, 10);
    last.set(FormatFlag::Bold, false);
    assert!(!fmt.lookup(11).1.is(FormatFlag::Bold));
    let (o, f) = fmt.lookup_mut(12);
    assert_eq!(o, 10);
    f.set(FormatFlag::Inverted, true);
    assert!(fmt.last().1.is(FormatFlag::Inverted));
}

#[test]
fn transform_reaches_every_format() {
    let mut fmt = Formats::default();
    let mut underlined = Format::default();
    underlined.set(FormatFlag::Underline, true);
    fmt.set(0, underlined.clone()).set(10, italic()).set(20, underlined);
    fmt.transform(|mut f: Format| {
        f.underline_to_bold();
        f
    });
    for q in [0usize, 20] {
        assert!(fmt.lookup(q).1.is(FormatFlag::Bold));
        assert!(!fmt.lookup(q).1.is(FormatFlag::Underline));
    }
    assert_eq!(fmt.lookup(10), (10usize, &italic()));
    assert_eq!(offsets(&fmt), vec![0, 10, 20]);
}
