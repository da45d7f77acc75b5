use hgtui::utils::{get_total_half_count, wrap_lines};

const DESC: &str = "图解 TLS 连接。用在线交互的方式讲解 TLS 的全过程，从建立 TLS 1.2 客户端发送 ping 再到接收 pong，详细到每一个字节。";

#[test]
fn test_get_total_half_count() {
    let test_desc = DESC;

    println!("{:?}", get_total_half_count(test_desc.to_string()));
}

#[test]
fn test_wrap_lines() {
    let test_desc = DESC;

    let lines = wrap_lines(test_desc.to_string(), 30);
    println!("{:?}", lines);
}

#[test]
fn half_count_counts_two_columns_outside_ascii() {
    assert_eq!(get_total_half_count("".to_string()), 0);
    assert_eq!(get_total_half_count("abc".to_string()), 3);
    assert_eq!(get_total_half_count("图解 TLS".to_string()), 8);
}

#[test]
fn wrap_lines_cuts_at_the_limit() {
    assert_eq!(wrap_lines("".to_string(), 5), vec!["".to_string()]);
    assert_eq!(wrap_lines("abcde".to_string(), 5), vec!["abcde".to_string()]);
    assert_eq!(
        wrap_lines("abcdefg".to_string(), 5),
        vec!["abcde".to_string(), "fg".to_string()]
    );
    // a wide character may run one column over the limit
    assert_eq!(
        wrap_lines("ab图解cd".to_string(), 3),
        vec!["ab图".to_string(), "解c".to_string(), "d".to_string()]
    );
    // a text that ends exactly at the limit is followed by an empty line
    assert_eq!(
        wrap_lines("abcdef".to_string(), 3),
        vec!["abc".to_string(), "def".to_string(), "".to_string()]
    );
}
