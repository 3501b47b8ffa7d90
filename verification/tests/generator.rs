use weyl::Rng;

#[test]
fn first_draw_exact_values() {
    // first draw from seed s is the 32-bit rotation of the Weyl increment
    // (x = 0, w = s after one advance)
    let mut g = Rng::new_seed(42);
    assert_eq!(g.u64(), 0xda1ce2fdb5ad4ece);
    assert_eq!(g.u64(), 0x9ae7f3be190a9f8c);
    assert_eq!(g.u64(), 0xc0b5dd87d8cb9bd6);

    let mut zero = Rng::new_seed(0);
    assert_eq!(zero.u64(), 0xda1ce2a9b5ad4ece);

    let mut seven = Rng::new_seed(7);
    assert_eq!(seven.u64(), 0xda1ce2b7b5ad4ece);
}

#[test]
fn distinct_seeds_distinct_first_draws() {
    let mut firsts: Vec<u64> = Vec::new();
    let mut s: u64 = 0;
    while s < 200 {
        let mut g = Rng::new_seed(s);
        firsts.push(g.u64());
        s += 1;
    }
    firsts.sort();
    for i in 1..firsts.len() {
        assert_ne!(firsts[i - 1], firsts[i]);
    }
}

#[test]
fn same_seed_identical_streams() {
    let mut a = Rng::new_seed(12345);
    let mut b = Rng::new_seed(12345);
    for _ in 0..1000 {
        assert_eq!(a.u64(), b.u64());
    }
    let mut buf_a = vec![0u8; 32];
    let mut buf_b = vec![0u8; 32];
    a.fill(&mut buf_a);
    b.fill(&mut buf_b);
    assert_eq!(buf_a, buf_b);
    for _ in 0..10 {
        assert_eq!(a.u64(), b.u64());
    }
}

#[test]
fn reseed_resumes_as_fresh() {
    let mut g = Rng::new_seed(1);
    for _ in 0..17 {
        g.u64();
    }
    g.seed(7);
    let mut fresh7 = Rng::new_seed(7);
    for _ in 0..100 {
        assert_eq!(g.u64(), fresh7.u64());
    }
    // reseeding back replays the original sequence from the start
    g.seed(1);
    let mut fresh1 = Rng::new_seed(1);
    for _ in 0..100 {
        assert_eq!(g.u64(), fresh1.u64());
    }
}

#[test]
fn f64_unit_interval() {
    // the floating conversion divides a full-range draw by 2^64
    let mut g = Rng::new_seed(2024);
    for _ in 0..10000 {
        let f = g.u64() as f64 / ((0xFFFFFFFFFFFFFFFFu64 as f64) + 1.0);
        assert!(f >= 0.0);
        assert!(f < 1.0);
    }
}

#[test]
fn fill_empty_is_noop() {
    let mut g = Rng::new_seed(9);
    let mut empty: Vec<u8> = Vec::new();
    g.fill(&mut empty);
    assert_eq!(empty.len(), 0);
    // no draw was consumed: the next value replays a fresh generator
    let mut replay = Rng::new_seed(9);
    assert_eq!(g.u64(), replay.u64());
}

#[test]
fn fill_matches_u64() {
    let mut filler = Rng::new_seed(42);
    let mut buf = vec![0u8; 8];
    filler.fill(&mut buf);
    let mut le: u64 = 0;
    for i in 0..8 {
        le |= (buf[i] as u64) << (8 * i);
    }
    let mut drawer = Rng::new_seed(42);
    assert_eq!(le, drawer.u64());
    assert_eq!(le, 15716686378918825678);
    // an eight-byte fill consumed exactly one draw
    assert_eq!(filler.u64(), drawer.u64());
}

#[test]
fn fill_partial_group_discards_high_bytes() {
    let mut g = Rng::new_seed(5);
    let mut buf = vec![0u8; 13];
    g.fill(&mut buf);
    assert_eq!(
        buf,
        vec![206, 78, 173, 181, 179, 226, 28, 218, 116, 16, 217, 16, 42],
    );
    // the partial group consumed a whole draw: the next value is draw three
    let mut replay = Rng::new_seed(5);
    replay.u64();
    replay.u64();
    assert_eq!(g.u64(), replay.u64());
}

#[test]
fn time_seeded_generator_runs() {
    let mut g = Rng::new();
    let mut buf = vec![0u8; 16];
    g.fill(&mut buf);
    g.u64();
}
