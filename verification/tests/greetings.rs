use subscription_counter::greeter::MyGreeter;
use subscription_counter::MyGreeter as ReexportedGreeter;

#[test]
fn greeting_wraps_the_name() {
    let greeter = MyGreeter::default();
    assert_eq!(greeter.say_hello("Tonic"), "Hello Tonic!");
}

#[test]
fn greeting_of_the_empty_name() {
    let greeter = ReexportedGreeter {};
    assert_eq!(greeter.say_hello(""), "Hello !");
}

#[test]
fn greeting_keeps_the_name_as_it_is() {
    let greeter = MyGreeter::default();
    assert_eq!(greeter.say_hello("  Zoë O'Neil "), "Hello   Zoë O'Neil !");
}
