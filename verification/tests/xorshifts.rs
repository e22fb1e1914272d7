use ising_metropolis::array_rng_interface::ArrayRngInterface;
use ising_metropolis::monte_carlo::{MonteCarloRngInterface, UNIT_SCALE};
use ising_metropolis::xorshifts::{
    low_half, rand_i32_from_word, unit_of_word, Xoroshiro128p, Xorshift64,
    XorshiftRandomGenerator, Xoshiro256p, Xoshiro256pp,
};

const TEST_NUMS: usize = 25;

fn float_between(mantissa: u32, low: f32, high: f32) -> f32 {
    low + (high - low) * (mantissa as f32 / (1_u32 << 24) as f32)
}

#[test]
fn test_float_xorshift64() {
    let mut rng = Xorshift64::new(42);
    let start = 1_f32;
    let end = 2_f32;
    for _ in 0..TEST_NUMS {
        let float = float_between(rng.rand_f32_mantissa(), start, end);
        println!("float = {float}");
        assert!(float > start && float < end, "float between {start} & {end}");
    }
}

#[test]
fn test_int_xorshift64() {
    let mut rng = Xorshift64::new(42);
    let start = 0;
    let end = 10;
    for _ in 0..TEST_NUMS {
        let num = rng.generate_rand_i32(start, end);
        println!("num = {num}");
        assert!(num >= start && num < end, "num between {start} & {end}");
    }
}

#[test]
fn test_float_xoroshiro128p() {
    let mut rng = Xoroshiro128p::new(12, 42);
    let start = 1_f32;
    let end = 2_f32;
    for _ in 0..TEST_NUMS {
        let float = float_between(rng.rand_f32_mantissa(), start, end);
        println!("float = {float}");
        assert!(float > start && float < end, "float between {start} & {end}");
    }
}

#[test]
fn test_int_xoroshiro128p() {
    let mut rng = Xoroshiro128p::new(12, 42);
    let start = 0;
    let end = 10;
    for _ in 0..TEST_NUMS {
        let num = rng.generate_rand_i32(start, end);
        println!("num = {num}");
        assert!(num >= start && num < end, "num between {start} & {end}");
    }
}

#[test]
fn test_float_xoshiro256p() {
    let mut rng = Xoshiro256p::new(12, 42, 123, 12345);
    let start = 1_f32;
    let end = 2_f32;
    for _ in 0..TEST_NUMS {
        let float = float_between(rng.rand_f32_mantissa(), start, end);
        println!("float = {float}");
        assert!(float > start && float < end, "float between {start} & {end}");
    }
}

#[test]
fn test_int_xoshiro256p() {
    let mut rng = Xoshiro256p::new(12, 42, 123, 12345);
    let start = 0;
    let end = 10;
    for _ in 0..TEST_NUMS {
        let num = rng.generate_rand_i32(start, end);
        println!("num = {num}");
        assert!(num >= start, "num >= {start}");
        assert!(num < end, "num < {end}");
    }
}

#[test]
fn test_float_xoshiro256pp() {
    let mut rng = Xoshiro256pp::from_utc();
    let start = 1_f32;
    let end = 2_f32;
    for _ in 0..TEST_NUMS {
        let float = float_between(rng.rand_f32_mantissa(), start, end);
        println!("float = {float}");
        assert!(float > start && float < end, "float between {start} & {end}");
    }
}

#[test]
fn test_int_xoshiro256pp() {
    let mut rng = Xoshiro256pp::from_utc();
    let start = 0;
    let end = 10;
    for _ in 0..TEST_NUMS {
        let num = rng.generate_rand_i32(start, end);
        println!("num = {num}");
        assert!(num >= start, "num >= {start}");
        assert!(num < end, "num < {end}");
    }
}

#[test]
fn xorshift64_known_words() {
    let mut rng = Xorshift64::new(42);
    assert_eq!(rng.generate(), 11532217803599905471);
    assert_eq!(rng.generate(), 10021416941527320954);
    assert_eq!(rng.generate(), 2899061411254629736);
}

#[test]
fn xoroshiro128p_known_words() {
    let mut rng = Xoroshiro128p::new(12, 42);
    assert_eq!(rng.generate(), 5222884048934);
    assert_eq!(rng.generate(), 9911353668697888807);
    assert_eq!(rng.generate(), 10093416784425687246);
}

#[test]
fn xoshiro256p_known_words() {
    let mut rng = Xoshiro256p::new(12, 42, 123, 12345);
    assert_eq!(rng.generate(), 433014067297267743);
    assert_eq!(rng.generate(), 436287039810318402);
    assert_eq!(rng.generate(), 10092673150210542081);
}

#[test]
fn xoshiro256pp_known_words() {
    let mut rng = Xoshiro256pp::new(12, 42, 123, 12345);
    assert_eq!(rng.generate(), 103339471183);
    assert_eq!(rng.generate(), 7361239247686416194);
    assert_eq!(rng.generate(), 7415729588704774311);
}

#[test]
fn generators_from_one_word_known_words() {
    let mut a = Xoroshiro128p::from_seed(7);
    assert_eq!(a.generate(), 3345725510838258786);
    assert_eq!(a.generate(), 10740113164463452987);
    let mut b = Xoshiro256p::from_seed(7);
    assert_eq!(b.generate(), 14732371353154001589);
    assert_eq!(b.generate(), 4020144401019097853);
    let mut c = Xoshiro256pp::from_seed(7);
    assert_eq!(c.generate(), 11320396235032463947);
    assert_eq!(c.generate(), 1070190565581921907);
}

#[test]
fn same_seed_same_sequence() {
    let mut a = Xorshift64::new(2024);
    let mut b = Xorshift64::new(2024);
    let mut c = Xoroshiro128p::new(3, 5);
    let mut d = Xoroshiro128p::new(3, 5);
    let mut e = Xoshiro256p::new(1, 2, 3, 4);
    let mut f = Xoshiro256p::new(1, 2, 3, 4);
    let mut g = Xoshiro256pp::from_seed(99);
    let mut h = Xoshiro256pp::from_seed(99);
    for _ in 0..1000 {
        assert_eq!(a.generate(), b.generate());
        assert_eq!(c.generate(), d.generate());
        assert_eq!(e.generate(), f.generate());
        assert_eq!(g.generate(), h.generate());
    }
    for _ in 0..100 {
        assert_eq!(a.generate_rand_i32(-7, 12), b.generate_rand_i32(-7, 12));
        assert_eq!(g.generate_rand_unit(), h.generate_rand_unit());
        assert_eq!(e.rand_f32_mantissa(), f.rand_f32_mantissa());
    }
}

#[test]
fn different_seeds_differ() {
    let mut a = Xoshiro256pp::from_seed(1);
    let mut b = Xoshiro256pp::from_seed(2);
    let same = (0..64).filter(|_| a.generate() == b.generate()).count();
    assert!(same < 64);
}

#[test]
fn draws_take_the_low_half_of_the_word() {
    assert_eq!(low_half(0x1234_5678_9abc_def0), 0x9abc_def0);
    assert_eq!(low_half(u64::MAX), u32::MAX);
    assert_eq!(rand_i32_from_word(11532217803599905471, 0, 10), 3);
    assert_eq!(rand_i32_from_word(11532217803599905471, -5, 5), -2);
    assert_eq!(rand_i32_from_word(0xffff_ffff_0000_0007, 0, 5), 2);
    assert_eq!(rand_i32_from_word(0, i32::MIN, i32::MAX), i32::MIN);
    assert_eq!(rand_i32_from_word(u64::MAX, i32::MIN, i32::MAX), i32::MIN);
    assert_eq!(rand_i32_from_word(0xffff_fffe, i32::MIN, i32::MAX), i32::MAX - 1);
    let mut rng = Xorshift64::new(42);
    let first: Vec<i32> = (0..5).map(|_| rng.generate_rand_i32(0, 10)).collect();
    assert_eq!(first, vec![3, 8, 2, 2, 7]);
    let mut rng = Xorshift64::new(42);
    assert_eq!(rng.generate_rand_u32(0, 10), 3);
}

#[test]
fn a_word_stands_for_its_top_53_bits() {
    assert_eq!(unit_of_word(0), 0);
    assert_eq!(unit_of_word(0x7ff), 0);
    assert_eq!(unit_of_word(0x800), 1);
    assert_eq!(unit_of_word(u64::MAX), UNIT_SCALE - 1);
    assert_eq!(unit_of_word(1 << 63), UNIT_SCALE / 2);
    assert_eq!(unit_of_word(11532217803599905471), 5630965724414016);
}

#[test]
fn mantissas_are_the_top_bits() {
    let mut rng = Xorshift64::new(42);
    assert_eq!(rng.rand_f32_mantissa(), 10488490);
    let mut rng = Xorshift64::new(42);
    assert_eq!(rng.rand_f64_mantissa(), 5630965724414016);
    let mut rng = Xorshift64::new(42);
    assert_eq!(rng.generate_rand_unit(), 5630965724414016);
    let mut rng = Xoshiro256pp::from_seed(5);
    for _ in 0..1000 {
        assert!(rng.generate_rand_unit() < UNIT_SCALE);
        assert!(rng.rand_f32_mantissa() < (1 << 24));
    }
}

#[test]
fn negative_ranges_stay_in_range() {
    let mut rng = Xoshiro256p::from_seed(11);
    for _ in 0..1000 {
        let num = rng.generate_rand_i32(-17, -3);
        assert!(num >= -17 && num < -3);
        let wide = rng.generate_rand_i32(i32::MIN, i32::MAX);
        assert!(wide < i32::MAX);
        let one = rng.generate_rand_i32(5, 6);
        assert_eq!(one, 5);
    }
}

#[test]
fn uniform_draws_fill_every_bucket() {
    let buckets = 10_usize;
    let draws = 100_000_usize;
    let mut rng = Xoshiro256pp::from_seed(12345);
    let mut counts = vec![0_usize; buckets];
    for _ in 0..draws {
        let num = rng.generate_rand_i32(0, buckets as i32);
        counts[num as usize] += 1;
    }
    let expected = (draws / buckets) as f64;
    for count in counts {
        let deviation = (count as f64 - expected).abs() / expected;
        assert!(deviation < 0.05, "bucket holds {count}, expected about {expected}");
    }
}

#[test]
fn seeds_from_outside_give_working_generators() {
    let mut a = Xorshift64::from_os();
    let mut b = Xoroshiro128p::from_os();
    let mut c = Xoshiro256p::from_os();
    let mut d = Xoshiro256pp::from_os();
    let mut e = Xorshift64::from_utc_time();
    let mut f = Xoroshiro128p::from_utc_time();
    let mut g = Xoshiro256p::from_utc();
    for _ in 0..100 {
        assert!(a.generate_rand_i32(0, 3) < 3);
        assert!(b.generate_rand_i32(0, 3) < 3);
        assert!(c.generate_rand_i32(0, 3) < 3);
        assert!(d.generate_rand_i32(0, 3) < 3);
        assert!(e.generate_rand_i32(0, 3) < 3);
        assert!(f.generate_rand_i32(0, 3) < 3);
        assert!(g.generate_rand_i32(0, 3) < 3);
    }
}
