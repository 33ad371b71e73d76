use primordial::Page;
use primordial::Pages;

#[test]
fn zeroed_page_is_all_zero() {
    let p = Page::zeroed();
    let b = p.as_bytes();
    assert_eq!(b.len(), 4096);
    assert!(b.iter().all(|&x| x == 0));
    assert_eq!(Page::SIZE, 4096);
}

#[test]
fn new_page_keeps_bytes() {
    let p = Page::new([5u8; 4096]);
    let b = p.as_bytes();
    assert_eq!(b.len(), 4096);
    assert!(b.iter().all(|&x| x == 5));
}

#[test]
fn default_page_is_zeroed() {
    let p: Page = Default::default();
    assert!(p.as_bytes().iter().all(|&x| x == 0));
}

#[test]
fn pages_new_wraps_value() {
    let pages = Pages::new(vec![Page::zeroed(), Page::zeroed()]);
    assert_eq!(pages.value.len(), 2);
    let pages: Pages<Vec<Page>> = Vec::new().into();
    assert_eq!(pages.value.len(), 0);
}

#[test]
fn copy_into_example() {
    let data = [1u8, 2, 3];
    let pages = Pages::copy_into(&data, 5, 2);
    assert_eq!(pages.value.len(), 1);
    let b = pages.value[0].as_bytes();
    assert_eq!(b.len(), 4096);
    assert_eq!(&b[0..2], &[0, 0]);
    assert_eq!(&b[2..5], &[1, 2, 3]);
    assert!(b[5..].iter().all(|&x| x == 0));
}

#[test]
fn copy_into_truncates_to_size() {
    let data = [9u8, 8, 7, 6, 5];
    let pages = Pages::copy_into(&data, 2, 0);
    let b = pages.value[0].as_bytes();
    assert_eq!(&b[0..2], &[9, 8]);
    assert!(b[2..].iter().all(|&x| x == 0));
}

#[test]
fn copy_into_empty_is_empty() {
    let pages = Pages::copy_into(&[], 0, 0);
    assert_eq!(pages.value.len(), 0);
}

#[test]
fn copy_into_spans_pages() {
    let data = [0xabu8; 10];
    let pages = Pages::copy_into(&data, 10, 4090);
    assert_eq!(pages.value.len(), 2);
    let first = pages.value[0].as_bytes();
    let second = pages.value[1].as_bytes();
    assert!(first[..4090].iter().all(|&x| x == 0));
    assert!(first[4090..].iter().all(|&x| x == 0xab));
    assert!(second[..4].iter().all(|&x| x == 0xab));
    assert!(second[4..].iter().all(|&x| x == 0));
}

#[test]
fn copy_equals_copy_into_at_zero() {
    let data = [7u8; 5];
    let pages = Pages::copy(&data);
    assert_eq!(pages.value.len(), 1);
    let b = pages.value[0].as_bytes();
    assert_eq!(&b[0..5], &[7, 7, 7, 7, 7]);
    assert!(b[5..].iter().all(|&x| x == 0));
}
