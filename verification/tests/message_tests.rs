use rust_spatial::errors::decimal_string;
use rust_spatial::errors::degenerate_segment_message;

#[test]
fn test_decimal_string_exact_values() {
    assert_eq!(decimal_string(0), "0");
    assert_eq!(decimal_string(7), "7");
    assert_eq!(decimal_string(10), "10");
    assert_eq!(decimal_string(105), "105");
    assert_eq!(decimal_string(18446744073709551615), "18446744073709551615");
}

#[test]
fn test_degenerate_segment_message_concatenation() {
    assert_eq!(
        degenerate_segment_message("A", "B"),
        "Os vértices de entrada e saída são iguais: Entrada: A; Saída: B"
    );
}
