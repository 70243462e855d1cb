use eclipse_warmup::modules::batch::split_into_batches;
use eclipse_warmup::onchain::eclipse::lifinity::math::get_amount_out;
use eclipse_warmup::onchain::eclipse::lifinity::typedefs::TradeDirection;
use eclipse_warmup::onchain::eclipse::lifinity::utils::extract_out_value;
use rand::Rng;

/// The value as the string functions of the standard library find it, or
/// nothing where the search would leave the text or split a character.
fn out_value_by_std(log: &str) -> Option<Option<u64>> {
    let Some(start) = log.find(r#""out""#) else {
        return Some(None);
    };
    let start = start + 6;
    if start > log.len() || !log.is_char_boundary(start) {
        return None;
    }
    let Some(end) = log[start..].find(',') else {
        return Some(None);
    };
    Some(log[start..start + end].trim().parse::<u64>().ok())
}

#[test]
fn out_value_agrees_with_the_standard_string_functions() {
    let pieces = [
        "\"out\"", "\"out\":", ",", " ", "\t", "\u{a0}", "\u{2003}", "\u{3000}", "\u{85}", "+",
        "-", "0", "7", "42", "18446744073709551615", "18446744073709551616", "é", "\"", "out",
        "x", ":", "\"in\":3", "\u{200b}", "\n", "１",
    ];
    let mut rng = rand::thread_rng();
    let mut compared = 0;
    let mut found = 0;
    for _ in 0..20_000 {
        let count = rng.gen_range(0..8);
        let mut log = String::new();
        if rng.gen_range(0..2) == 0 {
            log.push_str(pieces[rng.gen_range(0..pieces.len())]);
            log.push_str("\"out\":");
            if rng.gen_range(0..2) == 0 {
                log.push_str(pieces[rng.gen_range(3..18)]);
                log.push_str(pieces[rng.gen_range(11..16)]);
                log.push_str(pieces[rng.gen_range(2..9)]);
            }
        }
        for _ in 0..count {
            log.push_str(pieces[rng.gen_range(0..pieces.len())]);
        }
        match out_value_by_std(&log) {
            Some(expected) => {
                assert_eq!(extract_out_value(&log), expected, "log: {log:?}");
                compared += 1;
                if expected.is_some() {
                    found += 1;
                }
            }
            None => assert_eq!(extract_out_value(&log), None, "log: {log:?}"),
        }
    }
    assert!(compared > 10_000);
    assert!(found > 100);
}

#[test]
fn amount_out_agrees_with_plain_arithmetic() {
    let mut rng = rand::thread_rng();
    for _ in 0..20_000 {
        let amount_in: u64 = rng.gen_range(0..1u64 << 40);
        let a: u64 = rng.gen_range(1..1u64 << 50);
        let b: u64 = rng.gen_range(1..1u64 << 50);
        for (direction, src, dst) in [(TradeDirection::AtoB, a, b), (TradeDirection::BtoA, b, a)] {
            let fees = (amount_in * 25) / 10000;
            let net = amount_in - fees;
            let expected = ((dst as u128 * net as u128) / (src + net) as u128) as u64;
            assert_eq!(get_amount_out(amount_in, a, b, direction), Some(expected));
        }
    }
}

#[test]
fn batches_agree_with_chunks_of_the_standard_library() {
    let mut rng = rand::thread_rng();
    for _ in 0..2_000 {
        let n = rng.gen_range(1..60);
        let workers = rng.gen_range(1..12);
        let ids: Vec<i32> = (0..n).map(|_| rng.gen_range(1..1000)).collect();
        let chunk_size = ids.len() / workers + if ids.len() % workers != 0 { 1 } else { 0 };
        let expected: Vec<Vec<i32>> = ids.chunks(chunk_size).map(|c| c.to_vec()).collect();
        let batches = split_into_batches(&ids, workers);
        assert_eq!(batches, expected);
        assert!(batches.len() <= workers);
    }
}
