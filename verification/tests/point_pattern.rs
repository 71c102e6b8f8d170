use polynomial_finder::float_parser::get_points;

// A plain reading of the leftmost match of the point pattern on ASCII text:
// the longest number at the leftmost possible start, the fewest separators
// (at least one), then the longest number.

fn is_digit(c: char) -> bool {
    c.is_ascii_digit()
}

fn is_separator(c: char) -> bool {
    !is_digit(c) && c != '.'
}

fn digits_end(s: &[char], mut i: usize) -> usize {
    while i < s.len() && is_digit(s[i]) {
        i += 1;
    }
    i
}

fn number_end(s: &[char], i: usize) -> Option<usize> {
    let start = if i < s.len() && s[i] == '-' { i + 1 } else { i };
    if start < s.len() && is_digit(s[start]) {
        let e = digits_end(s, start);
        if e + 1 < s.len() && s[e] == '.' && is_digit(s[e + 1]) {
            Some(digits_end(s, e + 1))
        } else {
            Some(e)
        }
    } else {
        None
    }
}

fn first_match(s: &[char]) -> Option<(String, String)> {
    for i in 0..s.len() {
        let Some(k) = number_end(s, i) else { continue };
        if k >= s.len() || !is_separator(s[k]) {
            continue;
        }
        let mut j = k + 1;
        loop {
            if let Some(e) = number_end(s, j) {
                return Some((s[i..k].iter().collect(), s[j..e].iter().collect()));
            }
            if j < s.len() && is_separator(s[j]) {
                j += 1;
            } else {
                break;
            }
        }
    }
    None
}

#[test]
fn point_pattern_examples() {
    let cases = [
        "1, 2", "(-1.5; 3)", "x=10 y=-0.25 z=7", "1.2.3 4", "1.2.3", "-", "--1 -2", "1-2", "1 - 2",
        "a-1 2", "3.", "3. 4", ".5 6", "7 .8", "1..2 3", "12", "", "  9  8  ", "1 -x 2", "1-.2 3",
    ];
    for case in cases {
        let chars: Vec<char> = case.chars().collect();
        assert_eq!(get_points(case), first_match(&chars), "on {:?}", case);
    }
}

#[test]
fn point_pattern_on_generated_text() {
    let alphabet: Vec<char> = "0123456789..--  ,;ax".chars().collect();
    let mut seed: u64 = 0x2545F4914F6CDD1D;
    for _ in 0..4000 {
        seed ^= seed << 13;
        seed ^= seed >> 7;
        seed ^= seed << 17;
        let len = (seed % 12) as usize;
        let mut text = String::new();
        let mut x = seed;
        for _ in 0..len {
            x = x.wrapping_mul(6364136223846793005).wrapping_add(1442695040888963407);
            text.push(alphabet[((x >> 33) % alphabet.len() as u64) as usize]);
        }
        let chars: Vec<char> = text.chars().collect();
        assert_eq!(get_points(&text), first_match(&chars), "on {:?}", text);
    }
}
