use xoroshiro::Xoroshiro128Rng;

fn take_u32(rng: &mut Xoroshiro128Rng, n: usize) -> Vec<u32> {
    let mut v = Vec::new();
    for _ in 0..n {
        v.push(rng.next_u32());
    }
    v
}

fn take_u64(rng: &mut Xoroshiro128Rng, n: usize) -> Vec<u64> {
    let mut v = Vec::new();
    for _ in 0..n {
        v.push(rng.next_u64());
    }
    v
}

#[test]
fn output() {
    let mut rng = Xoroshiro128Rng::new_unseeded();
    rng.reseed([0xaeecf86f7878dd75, 0x1cd153642e72622]);

    let v: Vec<u32> = take_u32(&mut rng, 6);

    assert_eq!(
        v,
        vec![3143631767, 3860126924, 1781643561, 1911529541, 113917100, 2025972731,]
    );
}

#[test]
fn overflow() {
    let mut rng = Xoroshiro128Rng::from_seed([!0, 54]);
    rng.next_u32();
}

#[test]
fn jump() {
    let mut rng = Xoroshiro128Rng::new_unseeded();
    rng.reseed([0xaeecf86f7878dd75, 0x1cd153642e72622]);
    rng.jump();

    let v: Vec<u32> = take_u32(&mut rng, 6);

    assert_eq!(
        v,
        vec![3564949728, 3479480372, 1003893697, 3066975437, 1909106551, 3084299971,]
    );
}

#[test]
fn overflow_output_wraps() {
    let mut rng = Xoroshiro128Rng::from_seed([u64::MAX, 54]);
    assert_eq!(rng.next_u64(), 53);
    let mut rng = Xoroshiro128Rng::from_seed([u64::MAX, 54]);
    assert_eq!(rng.next_u32(), 53);
}

#[test]
fn output_u64_reference() {
    let mut rng = Xoroshiro128Rng::from_seed([0xaeecf86f7878dd75, 0x1cd153642e72622]);
    assert_eq!(
        take_u64(&mut rng, 6),
        vec![
            12734505901807895447,
            1774571076275461324,
            11701296954128578857,
            12386644765422100549,
            11151369623348853932,
            17738344560913933307,
        ]
    );
}

#[test]
fn same_seed_same_stream() {
    let mut a = Xoroshiro128Rng::from_seed([100, 200]);
    let mut b = Xoroshiro128Rng::from_seed([100, 200]);
    assert_eq!(take_u64(&mut a, 1000), take_u64(&mut b, 1000));
}

#[test]
fn reseed_forgets_prior_state() {
    let mut a = Xoroshiro128Rng::from_seed([7, 9]);
    let _ = take_u64(&mut a, 37);
    a.reseed([100, 200]);
    let mut b = Xoroshiro128Rng::from_seed([100, 200]);
    assert_eq!(take_u64(&mut a, 100), take_u64(&mut b, 100));
}

#[test]
fn u32_is_low_half_of_u64() {
    let mut a = Xoroshiro128Rng::from_seed([0x0123456789abcdef, 0xfedcba9876543210]);
    let mut b = a.clone();
    for _ in 0..500 {
        let x = a.next_u64();
        let y = b.next_u32();
        assert_eq!(y, x as u32);
    }
}

#[test]
fn zero_seed_gives_zero_stream() {
    let mut rng = Xoroshiro128Rng::from_seed([0, 0]);
    assert_eq!(take_u64(&mut rng, 50), vec![0u64; 50]);
    assert_eq!(take_u32(&mut rng, 50), vec![0u32; 50]);
    rng.jump();
    assert_eq!(rng.next_u64(), 0);
}

#[test]
fn unseeded_is_fixed_and_nonzero() {
    let mut a = Xoroshiro128Rng::new_unseeded();
    let mut b = Xoroshiro128Rng::new_unseeded();
    assert_eq!(a.next_u64(), 12735464349504863268);
    assert_eq!(b.next_u64(), 12735464349504863268);
    assert_eq!(take_u64(&mut a, 20), take_u64(&mut b, 20));
}

#[test]
fn entropy_draw_of_zero_asks_again() {
    assert!(Xoroshiro128Rng::from_entropy_draw([0, 0]).is_none());
}

#[test]
fn entropy_draw_discards_one_output() {
    let mut g = Xoroshiro128Rng::from_entropy_draw([1, 2]).unwrap();
    let mut expected = Xoroshiro128Rng::from_seed([36028797019013123, 206158430208]);
    assert_eq!(take_u64(&mut g, 10), take_u64(&mut expected, 10));

    let mut g = Xoroshiro128Rng::from_entropy_draw([0, 1]).unwrap();
    let mut expected = Xoroshiro128Rng::from_seed([16385, 68719476736]);
    assert_eq!(take_u64(&mut g, 10), take_u64(&mut expected, 10));
}

#[test]
fn jump_of_unit_state() {
    let mut g = Xoroshiro128Rng::from_seed([1, 0]);
    g.jump();
    let mut expected = Xoroshiro128Rng::from_seed([10839976328388801569, 6903310926039038723]);
    assert_eq!(take_u64(&mut g, 10), take_u64(&mut expected, 10));
}
