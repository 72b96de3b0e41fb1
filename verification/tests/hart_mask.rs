use machine_rustsbi::hart_mask::HartMask;

const W: usize = usize::BITS as usize;

fn has(mask: &HartMask, memory: &[usize], base: usize, hart: usize) -> bool {
    let addr = mask.word_address(hart).unwrap();
    let word = memory[(addr - base) / (W / 8)];
    mask.has_bit(hart, word)
}

#[test]
fn from_addr_keeps_the_limit() {
    let mask = HartMask::from_addr(0x8000_1000, 7);
    assert_eq!(mask.max_hart_id(), 7);
    assert_eq!(mask.word_address(0), Some(0x8000_1000));
}

#[test]
fn word_address_steps_one_word_per_w_harts() {
    let mask = HartMask::from_addr(0x1000, 1000);
    assert_eq!(mask.word_address(W - 1), Some(0x1000));
    assert_eq!(mask.word_address(W), Some(0x1000 + W / 8));
    assert_eq!(mask.word_address(3 * W + 5), Some(0x1000 + 3 * (W / 8)));
}

#[test]
fn word_address_beyond_address_space() {
    let mask = HartMask::from_addr(usize::MAX - 3, usize::MAX);
    assert_eq!(mask.word_address(0), Some(usize::MAX - 3));
    assert_eq!(mask.word_address(W), None);
}

#[test]
fn has_bit_reads_the_hart_bit() {
    let base = 0x2000;
    let memory = [0b1010_0001usize, 1usize << (W - 1)];
    let mask = HartMask::from_addr(base, 2 * W - 1);
    let set: Vec<usize> = (0..2 * W).filter(|&h| has(&mask, &memory, base, h)).collect();
    assert_eq!(set, vec![0, 5, 7, 2 * W - 1]);
}

#[test]
fn has_bit_of_empty_and_full_words() {
    let mask = HartMask::from_addr(0, W);
    for h in 0..W {
        assert!(!mask.has_bit(h, 0));
        assert!(mask.has_bit(h, usize::MAX));
    }
    assert!(mask.has_bit(W, 1));
    assert!(!mask.has_bit(W, 2));
}

#[test]
fn distinct_harts_distinct_bits() {
    let mut seen = std::collections::HashSet::new();
    for h in 0..4 * W {
        assert!(seen.insert((h / W, h % W)));
    }
}

#[test]
fn named_harts_lists_set_bits_in_order() {
    let mask = HartMask::from_addr(0x4000, 2 * W);
    let words = vec![0b1001_0110usize, 1usize | (1usize << (W - 1)), 1usize];
    assert_eq!(mask.named_harts(&words, 2 * W), vec![1, 2, 4, 7, W, 2 * W - 1, 2 * W]);
    assert_eq!(mask.named_harts(&words, 3), vec![1, 2]);
    assert_eq!(mask.named_harts(&words, 0), Vec::<usize>::new());
    assert_eq!(mask.named_harts(&vec![0usize], W - 1), Vec::<usize>::new());
}
