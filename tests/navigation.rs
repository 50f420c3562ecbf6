use char_stream::{BiDirectionalIterator, CharStream, CharStreamError};

#[test]
fn it_can_get_the_next() {
    let value = String::from("foobar");
    let mut stream = CharStream::from(value);
    assert_eq!(Ok('f'), stream.next());
}

#[test]
fn it_can_get_the_prev() {
    let value = String::from("foobar");
    let mut stream = CharStream::from(value);
    let _ = stream.next(); // 'f'
    let _ = stream.next(); // 'o'
    assert_eq!(Ok('f'), stream.prev());
}

#[test]
fn it_wont_step_off_the_front() {
    let value = String::from("foobar");
    let mut stream = CharStream::from(value);
    let _ = stream.next(); // 'f'
    assert_eq!(Err(CharStreamError::FallsOffEnd), stream.prev());
}

#[test]
fn it_wont_step_off_the_end() {
    let value = String::from("foobar");
    let mut stream = CharStream::from(value);
    let _ = stream.next(); // 'f'
    let _ = stream.next(); // 'o'
    let _ = stream.next(); // 'o'
    let _ = stream.next(); // 'b'
    let _ = stream.next(); // 'a'
    let _ = stream.next(); // 'r'
    assert_eq!(Err(CharStreamError::FallsOffEnd), stream.next());
}

#[test]
fn it_wont_step_off_the_front_peek() {
    let value = String::from("foobar");
    let mut stream = CharStream::from(value);
    let _ = stream.next(); // 'f'
    assert!(matches!(stream.peek_prev(), Err(CharStreamError::FallsOffEnd)));
}

#[test]
fn it_wont_step_off_the_end_peek() {
    let value = String::from("foobar");
    let mut stream = CharStream::from(value);
    let _ = stream.peek_next(); // 'f'
    let _ = stream.peek_next(); // 'o'
    let _ = stream.peek_next(); // 'o'
    let _ = stream.peek_next(); // 'b'
    let _ = stream.peek_next(); // 'a'
    let _ = stream.peek_next(); // 'r'
    assert_eq!(
        Err(CharStreamError::FallsOffEnd),
        stream.peek_next().and_then(|s| s.value())
    );
}

#[test]
fn it_can_get_the_peek_next() {
    let value = String::from("foobar");
    let mut stream = CharStream::from(value);
    assert_eq!(Ok('f'), stream.peek_next().and_then(|s| s.value()));
}

#[test]
fn it_can_get_the_peek_prev() {
    let value = String::from("foobar");
    let mut stream = CharStream::from(value);
    assert!(stream.peek_next().is_ok());
    assert_eq!(
        Ok('f'),
        stream
            .peek_next()
            .and_then(|s| s.peek_prev())
            .and_then(|s| s.value())
    );
}

#[test]
fn it_can_get_back_to_where_it_started() {
    let value = String::from("foobar");
    let mut stream = CharStream::from(value);
    let _ = stream.next(); // 'f'
    let _ = stream.next(); // 'o'
    let _ = stream.next(); // 'o'
    let _ = stream.next(); // 'b'
    let _ = stream.next(); // 'a'
    let _ = stream.next(); // 'r'
    let _ = stream.prev(); // 'a'
    let _ = stream.prev(); // 'b'
    let _ = stream.prev(); // 'o'
    let _ = stream.prev(); // 'o'
    assert_eq!(Ok('f'), stream.prev());
}

#[test]
fn it_can_get_back_to_where_it_started_peek() {
    let value = String::from("foobar");
    let mut stream = CharStream::from(value);
    let _ = stream.next(); // 'f'
    let _ = stream.next(); // 'o'
    let _ = stream.next(); // 'o'
    let _ = stream.next(); // 'b'
    let _ = stream.next(); // 'a'
    let _ = stream.next(); // 'r'
    let _ = stream.prev(); // 'a'
    let _ = stream.prev(); // 'b'
    let _ = stream.prev(); // 'o'
    let _ = stream.prev(); // 'o'
    assert_eq!(Ok('f'), stream.prev());
}
