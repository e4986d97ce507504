use doc::{ExampleClassWithNoTypos, ExampleClassWithTypos, Person};

#[test]
fn person_keeps_its_name() {
    let john = Person::new("John");
    assert_eq!(john.name(), "John");
}

#[test]
fn person_with_empty_name() {
    let nobody = Person::new("");
    assert_eq!(nobody.name(), "");
    assert_eq!(nobody.greeting(), "Hello, !");
}

#[test]
fn greeting_names_the_person() {
    let john = Person::new("John");
    assert_eq!(john.greeting(), "Hello, John!");
}

#[test]
fn greeting_with_non_ascii_name() {
    let anna = Person::new("Анна");
    assert_eq!(anna.greeting(), "Hello, Анна!");
}

#[test]
fn group_without_typos_new_names_the_result() {
    let p = ExampleClassWithNoTypos::new("readers");
    assert_eq!(p.name(), "readers");
}

#[test]
fn group_with_typos_new_names_the_result() {
    let p = ExampleClassWithTypos::new("writers");
    assert_eq!(p.name(), "writers");
}

#[test]
fn group_without_typos_size_after_adding() {
    assert_eq!(ExampleClassWithNoTypos::good_function("alice"), 1);
    assert_eq!(ExampleClassWithNoTypos::good_function(""), 1);
}

#[test]
fn group_with_typos_size_after_adding() {
    assert_eq!(ExampleClassWithTypos::good_function("bob"), 1);
    assert_eq!(ExampleClassWithTypos::good_function(""), 1);
}
