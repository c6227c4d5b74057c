#[test]
fn test_enum() {
    #[derive(Debug)]
    enum Book {
        Papery,
        Electronic,
    }

    let elec = Book::Electronic;
    println!("{:#?}, {:#?}", Book::Papery, elec);

    #[derive(Debug)]
    enum Book2 {
        Papery(u32),
        Electronic(String),
    }
    println!(
        "{:#?}, {:#?}",
        Book2::Papery(1001),
        Book2::Electronic(String::from("url://..."))
    );
}
