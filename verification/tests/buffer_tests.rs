use dotdash::buffer::{RollingBuffer, BUFFER_CAPACITY};

#[test]
fn push_and_read_back() {
    let mut b = RollingBuffer::new();
    b.push_char('a');
    b.push_char('b');
    b.push_char('c');
    assert_eq!(b.len(), 3);
    assert_eq!(b.contents(), vec!['a', 'b', 'c']);
    assert_eq!(b.get(0), 'a');
    assert_eq!(b.get(2), 'c');
}

#[test]
fn overflow_drops_oldest_first() {
    let mut b = RollingBuffer::new();
    for i in 0..(BUFFER_CAPACITY + 5) {
        let c = char::from_u32(('a' as u32) + (i as u32 % 26)).unwrap();
        b.push_char(c);
    }
    // The cap holds, and the five oldest characters are the ones gone.
    assert_eq!(b.len(), BUFFER_CAPACITY);
    assert_eq!(b.get(0), char::from_u32(('a' as u32) + 5).unwrap());
}

#[test]
fn push_chars_overflow_keeps_suffix() {
    let mut b = RollingBuffer::new();
    let many: Vec<char> = std::iter::repeat('x').take(BUFFER_CAPACITY).collect();
    b.push_chars(&many);
    b.push_chars(&vec!['y', 'z']);
    assert_eq!(b.len(), BUFFER_CAPACITY);
    assert_eq!(b.get(BUFFER_CAPACITY - 2), 'y');
    assert_eq!(b.get(BUFFER_CAPACITY - 1), 'z');
    assert_eq!(b.get(0), 'x');
}

#[test]
fn pop_removes_newest_and_tolerates_empty() {
    let mut b = RollingBuffer::new();
    b.push_char('a');
    b.push_char('b');
    b.pop();
    assert_eq!(b.contents(), vec!['a']);
    b.pop();
    assert_eq!(b.len(), 0);
    // Backspace on an empty buffer is a no-op.
    b.pop();
    assert_eq!(b.len(), 0);
}

#[test]
fn clear_empties_the_window() {
    let mut b = RollingBuffer::new();
    b.push_chars(&vec!['a', 'b', 'c']);
    b.clear();
    assert_eq!(b.len(), 0);
    assert_eq!(b.contents(), Vec::<char>::new());
}
