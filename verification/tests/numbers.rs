use tanoshi::route::{parse_i32, parse_usize, push_i32, push_usize};

fn chars(s: &str) -> Vec<char> {
    s.chars().collect()
}

#[test]
fn numbers_read_like_from_str() {
    for s in ["0", "42", "-42", "+42", "007", "-0", "2147483647", "-2147483648", "2147483648", "-", "+", "", "4a", " 4", "--1"] {
        assert_eq!(parse_i32(&chars(s)), s.parse::<i32>().ok(), "{}", s);
    }
    for s in ["0", "42", "+42", "-1", "18446744073709551615", "18446744073709551616", "", "+", "1_0"] {
        assert_eq!(parse_usize(&chars(s)), s.parse::<usize>().ok(), "{}", s);
    }
}

#[test]
fn numbers_written_like_display() {
    for n in [0i32, 7, -7, 10, 1234, i32::MAX, i32::MIN] {
        let mut out = String::from("x");
        push_i32(&mut out, n);
        assert_eq!(out, format!("x{}", n));
    }
    for n in [0usize, 9, 10, 99, 100, usize::MAX] {
        let mut out = String::new();
        push_usize(&mut out, n);
        assert_eq!(out, n.to_string());
    }
}
