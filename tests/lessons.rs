use std::cell::RefCell;

use rust_lessons::blog::{Post, State};
use rust_lessons::cacher::Cacher;
use rust_lessons::circles::{Circle, DiameterCircle};
use rust_lessons::closures::{greet_each, run};
use rust_lessons::fib::fib;
use rust_lessons::generics::{
    get_largest, get_largest_item, get_largest_item_ref, longest, Point, PointMixCreator, SecondPoint,
};
use rust_lessons::http::{method, route, Method, Route};
use rust_lessons::gui::{Component, Control, ControlEntity, ControlType, Screen};
use rust_lessons::quota::{quota_level, Messenger, QuotaLevel, Tracker};
use rust_lessons::search::{search, search_case_insensitive, Search};
use rust_lessons::shape::Type;
use rust_lessons::shapes::{can_hold, Guess, Rectangle};

#[test]
fn lib_it_works() {
    assert_eq!(2 + 2, 4);
}

#[test]
fn it_checks_position_fourth() {
    let fourth_element = fib(4);
    println!("Fourth element: {}", fourth_element);
    assert_eq!(3, fourth_element);
}

#[test]
fn it_checks_position_fifth() {
    let fifth_element = fib(5);
    println!("Fifth element: {}", fifth_element);
    assert_eq!(5, fifth_element);
}

#[test]
fn it_checks_position_sixth() {
    let sixth_element = fib(6);
    println!("Sixth element: {}", sixth_element);
    assert_eq!(8, sixth_element);
}

#[test]
fn fib_starts_with_zero_and_one() {
    assert_eq!(fib(0), 0);
    assert_eq!(fib(1), 1);
    assert_eq!(fib(10), 55);
}

#[test]
fn another_name() {
    assert_eq!(2 + 2, 4);
}

#[test]
fn test_rects() {
    let rect1 = Rectangle { x: 5, y: 5 };
    let rect2 = Rectangle { x: 3, y: 3 };
    assert!(can_hold(&rect1, &rect2));
    assert!(!can_hold(&rect2, &rect1));
}

#[test]
fn equal_rectangles_do_not_hold_each_other() {
    let rect = Rectangle { x: 4, y: 4 };
    let wide = Rectangle { x: 9, y: 4 };
    assert!(!can_hold(&rect, &rect));
    assert!(!can_hold(&wide, &rect));
}

#[test]
fn test_guess_print_output() {
    let guess = Guess::new(100);
    println!("Guess value: {}", guess.value);
    assert_eq!(guess.value, 100);
}

fn fib_i32(a: i32) -> i32 {
    if a == 0 || a == 1 {
        return a;
    }
    fib_i32(a - 1) + fib_i32(a - 2)
}

fn factorial(a: i32) -> i32 {
    if a == 1 {
        return 1;
    }
    factorial(a - 1) * a
}

fn factorial_of_five() {
    println!("Factorial of 5 is {}", factorial(5));
}

#[test]
fn it_prints_fib_series() {
    run(|| {
        println!("Fib for {} is {}", 6, fib_i32(6));
    });
}

#[test]
fn it_prints_factorial_series() {
    run(factorial_of_five);
}

#[test]
fn run_calls_the_function_once() {
    let calls = RefCell::new(0);
    run(|| *calls.borrow_mut() += 1);
    assert_eq!(*calls.borrow(), 1);
}

#[test]
fn it_greets_each() {
    let greeting = greet_each(&["Alice", "Bob", "Carol"]);
    println!("{}", greeting);
    assert_eq!(greeting, "Hello Alice, Bob and Carol");
}

#[test]
fn greeting_of_few_names() {
    assert_eq!(greet_each(&[]), "Hello ");
    assert_eq!(greet_each(&["Alice"]), "Hell and Alice");
    assert_eq!(greet_each(&["Alice", "Bob"]), "Hello Alice and Bob");
}

#[test]
fn it_sums_two_circles_and_both_sum_up_three() {
    let circle1 = DiameterCircle { d: 2 };
    let circle2 = Circle { r: 2 };
    let circle3 = circle1 + circle2;
    assert_eq!(circle3.d, 6);
}

trait Matter {
    fn state(&self) -> String;
}

struct Ice {
    state: String,
    degrees: i32,
}

struct Water<'a> {
    state: String,
    temperature: &'a i32,
}

struct Vapor {
    state: String,
    condensation_point: Box<i32>,
}

impl Matter for Ice {
    fn state(&self) -> String {
        String::from(&self.state)
    }
}

impl<'a> Matter for Water<'a> {
    fn state(&self) -> String {
        String::from(&self.state)
    }
}

impl Matter for Vapor {
    fn state(&self) -> String {
        String::from(&self.state)
    }
}

fn get_matter_state<T: Matter>(matter: &T) -> String {
    matter.state()
}

fn get_number_type<T: ?Sized>(number: &T) -> &T {
    number
}

fn returns_generic_type<T: ?Sized>(t: &T) -> &T {
    t
}

#[test]
fn it_types_with_a_dst_trait() {
    let result = returns_generic_type::<&str>(&"Hello, World!");
    assert_eq!(result, &"Hello, World!");
}

#[test]
fn it_knows_every_matter_state() {
    let ice = Ice { state: String::from("solid"), degrees: 0 };
    let water_temperature: i32 = 20;
    let water = Water { state: String::from("liquid"), temperature: &water_temperature };
    let vapor = Vapor { state: String::from("gas"), condensation_point: Box::new(100) };
    assert_eq!(get_matter_state(&ice), "solid");
    assert_eq!(get_matter_state(&water), "liquid");
    assert_eq!(get_matter_state(&vapor), "gas");
    assert_eq!(get_number_type(&ice.degrees), &0);
    assert_eq!(get_number_type(water.temperature), &20);
    assert_eq!(get_number_type(&(*vapor.condensation_point)), &100);
}

#[test]
fn it_checks_equality_on_memoization_successfully() {
    let mut cacher = Cacher::new(|val| val);
    let _value_1 = cacher.value(1);
    let value_2 = cacher.value(2);
    assert_eq!(value_2, 2);
}

#[test]
fn cacher_runs_the_calculation_once_per_argument() {
    let calls = RefCell::new(0u32);
    let mut cacher = Cacher::new(|val: u8| {
        *calls.borrow_mut() += 1;
        val.wrapping_mul(3)
    });
    assert_eq!(cacher.value(4), 12);
    assert_eq!(cacher.value(4), 12);
    assert_eq!(cacher.value(5), 15);
    assert_eq!(*calls.borrow(), 2);
}

#[test]
fn it_passes_equality_by_closure_env_capture() {
    let x = 4;
    let func = |z| z == x;
    let y = 4;
    assert!(func(y));
}

#[test]
fn it_checks_iter() {
    let vec_1 = vec![1, 2, 3];
    let mut iter = vec_1.iter();
    let value = iter.next().unwrap();
    assert_eq!(vec_1[0], *value);
}

#[test]
fn it_filters_out_odd_values() {
    let elements = vec![1, 2, 3, 4];
    let even_iter = elements.iter().filter(|n| *n % 2 == 0);
    let even_elements: Vec<&u8> = even_iter.collect();
    println!("{:?}", even_elements);
}

struct Counter {
    pub val: u8,
}

impl Iterator for Counter {
    type Item = u8;
    fn next(&mut self) -> Option<Self::Item> {
        if self.val < 5 {
            self.val += 1;
            Some(self.val)
        } else {
            None
        }
    }
}

#[test]
fn it_counts_to_five_only() {
    let mut counter = Counter { val: 0 };
    let another_counter = Counter { val: 0 };
    let even_elements: Vec<u8> = another_counter.filter(|x| *x % 2 == 0).collect();
    counter.next();
    counter.next();
    counter.next();
    counter.next();
    counter.next();
    let last_val = counter.next();
    println!("Even elements: {:?}", even_elements);
    assert_eq!(last_val, None);
}

#[test]
fn it_uses_more_iter_methods() {
    let counter = Counter { val: 0 };
    let another_counter = Counter { val: 0 };
    let sum: u8 = another_counter.zip(counter).map(|(a, b)| a * b).sum();
    println!("Sum of the multiple iterator method usage: {:?}", sum);
    assert_eq!(sum, 55);
}

#[test]
fn it_draws_multiple_components() {
    let screen = Screen {
        components: vec![
            Box::new(Control::new(ControlType::Button)),
            Box::new(Control::new(ControlType::Select)),
        ],
    };
    let drawings = screen.run();
    assert_eq!(drawings, vec!["Draw control".to_string(), "Draw control".to_string()]);
}

#[test]
fn control_holds_an_entity_of_its_kind() {
    let button = Control::new(ControlType::Button);
    assert!(matches!(button.entity, ControlEntity::Button(ref b) if b.width == 0 && b.label.is_empty()));
    let select = Control::new(ControlType::Select);
    assert!(matches!(select.entity, ControlEntity::Select(ref s) if s.options.is_empty()));
}

#[test]
fn it_shadows_variables() {
    let x = Some(5);
    let y = 10;
    match x {
        Some(1..=5) => println!("Got a number between 1 and 5"),
        Some(50) => println!("Got 50"),
        Some(y) => println!("Matched, y = {:?}", y),
        _ => println!("Whatever, x = {:?}", x),
    };
    let _ = y;
}

struct Round {
    r: u32,
}

#[test]
fn it_destructures_struct_props() {
    let x = Round { r: 6 };
    let Round { r } = x;
    println!("r = {}", r);
    match x {
        Round { r: 0 } => println!("r is 0"),
        Round { r: 1..=5 } => println!("r is between 1 and 5"),
        Round { r } if r > 5 => println!("r is greater than 5"),
        Round { r: 8 } | Round { r: 10 } if r % 2 == 0 => println!("r is 4 or 6 and is even"),
        Round { r: radius @ 9..=11 } => println!("r is {}", radius),
        Round { .. } => println!("A circle with any radius"),
    }
    let x = Some(5);
    if let Some(_x) = x {
        println!("We have a value");
    }
}

struct MockMessenger {
    sent_messages: RefCell<Vec<String>>,
    value: RefCell<usize>,
}

impl MockMessenger {
    fn new() -> Self {
        MockMessenger { sent_messages: RefCell::new(vec![]), value: RefCell::new(0) }
    }
}

impl Messenger for MockMessenger {
    fn send(&self, msg: &str) {
        println!("Message sent: {}", msg);
        self.sent_messages.borrow_mut().push(String::from(msg));
        *self.value.borrow_mut() = 5;
        println!("Value assigned: {}", self.value.borrow());
    }
}

#[test]
fn it_sends_an_over_75_percent_warning_message() {
    let mock_messenger = MockMessenger::new();
    let mut limit_tracker = Tracker::new(&mock_messenger, 100);
    limit_tracker.set_value(80);
    assert_eq!(mock_messenger.sent_messages.borrow().len(), 1);
    assert_eq!(*mock_messenger.value.borrow(), 5);
}

#[test]
fn tracker_warns_by_level() {
    let mock_messenger = MockMessenger::new();
    let mut limit_tracker = Tracker::new(&mock_messenger, 100);
    assert_eq!(limit_tracker.set_value(50), QuotaLevel::Fine);
    assert_eq!(mock_messenger.sent_messages.borrow().len(), 0);
    assert_eq!(limit_tracker.set_value(90), QuotaLevel::Ninety);
    assert_eq!(limit_tracker.set_value(100), QuotaLevel::Exhausted);
    let sent = mock_messenger.sent_messages.borrow();
    assert_eq!(sent.len(), 2);
    assert!(sent[0].starts_with("Slight Warning"));
    assert!(sent[1].starts_with("Warning!"));
}

#[test]
fn quota_levels_at_the_edges() {
    assert_eq!(quota_level(74, 100), QuotaLevel::Fine);
    assert_eq!(quota_level(75, 100), QuotaLevel::SeventyFive);
    assert_eq!(quota_level(89, 100), QuotaLevel::SeventyFive);
    assert_eq!(quota_level(9, 10), QuotaLevel::Ninety);
    assert_eq!(quota_level(101, 100), QuotaLevel::Exhausted);
    assert_eq!(quota_level(0, 0), QuotaLevel::Fine);
    assert_eq!(quota_level(1, 0), QuotaLevel::Exhausted);
    assert_eq!(quota_level(usize::MAX, usize::MAX), QuotaLevel::Exhausted);
}

#[test]
fn post_is_published_after_review_and_two_approvals() {
    let mut post = Post::new();
    post.add_text("I ate a salad for lunch today");
    assert_eq!(post.content(), "");
    post.send_for_review();
    assert_eq!(*post.state(), State::Review);
    post.add_text(" ignored");
    post.approve();
    assert_eq!(*post.state(), State::Review);
    assert_eq!(post.content(), "");
    post.approve();
    assert_eq!(*post.state(), State::Published);
    assert_eq!(post.content(), "I ate a salad for lunch today");
}

#[test]
fn shapes_are_made_by_name() {
    assert!(matches!(Type::create("triangle"), Some(Type::Triangle(_))));
    assert!(matches!(Type::create("circle"), Some(Type::Circle(_))));
    assert!(matches!(Type::create("rectangle"), Some(Type::Square(_))));
    assert!(matches!(Type::create("square"), Some(Type::Rectangle(_))));
    assert!(Type::create("rhomboid").is_none());
    assert!(matches!(Type::non_guaranteed_shape("rectangle"), Some(Type::Rectangle(_))));
    assert!(matches!(Type::non_guaranteed_shape("diamond"), Some(Type::Unknown)));
    assert!(Type::is_quadrangle(&Type::create("square")));
    assert!(!Type::is_quadrangle(&Type::create("triangle")));
    assert!(!Type::is_quadrangle(&None));
}

#[test]
fn largest_items() {
    assert_eq!(get_largest(&vec![34, 50, 25, 100, 65]), 100);
    assert_eq!(get_largest_item(&['y', 'm', 'a', 'q']), 'y');
    assert_eq!(get_largest_item(&[3, 9, 2]), 9);
    assert_eq!(*get_largest_item_ref(&[1, 7, 7, 4]), 7);
    assert_eq!(get_largest(&vec![5]), 5);
}

#[test]
fn points() {
    let p = Point { x: 3, y: 0 };
    let q = Point { x: 10, y: 1 };
    assert_eq!(p.abs_x_diff_from_point(&q), 7);
    assert_eq!(q.abs_x_diff_from_point(&p), 7);
    let mixed = PointMixCreator { x: 5, y: 10.4 }.new_from_another_point(PointMixCreator { x: "Hello", y: 'c' });
    assert_eq!(mixed.x, 5);
    assert_eq!(mixed.y, 'c');
    let second = SecondPoint { x: 1u8, y: "one" };
    assert_eq!(*second.x(), 1);
}

#[test]
fn longest_by_bytes() {
    assert_eq!(longest("abcd", "xyz"), "abcd");
    assert_eq!(longest("ab", "xyz"), "xyz");
    assert_eq!(longest("abc", "xyz"), "both");
}

#[test]
fn search_finds_lines_with_query() {
    let contents = "Rust:\nsafe, fast, productive.\nPick three.\nDuct tape.";
    assert_eq!(search("duct", contents), vec!["safe, fast, productive."]);
    assert_eq!(search("nothing", contents), Vec::<&str>::new());
}

#[test]
fn search_ignoring_case() {
    let contents = "Rust:\nsafe, fast, productive.\nPick three.\nTrust me.";
    assert_eq!(search_case_insensitive("rUsT", contents), vec!["Rust:", "Trust me."]);
    assert_eq!(search("rUsT", contents), Vec::<&str>::new());
}

#[test]
fn search_request_from_arguments() {
    let args = vec!["prog".to_string(), "to".to_string(), "poem.txt".to_string()];
    let request = Search::new(&args, false).ok().unwrap();
    assert_eq!(request.query, "to");
    assert_eq!(request.location, "poem.txt");
    assert_eq!(request.find_in("to be\nor not\nto go"), vec!["to be", "to go"]);
    let short = vec!["prog".to_string()];
    assert_eq!(Search::new(&short, true).err().unwrap(), "not enough arguments, missing query and/or location");
}

#[test]
fn request_line_gives_method_and_route() {
    let home = vec!["GET / HTTP/1.1".to_string(), "Host: x".to_string()];
    assert!(matches!(method(&home), Method::GET));
    assert!(matches!(route(&home), Route::Home));
    let sleep = vec!["POST /sleep HTTP/1.1".to_string()];
    assert!(matches!(method(&sleep), Method::POST));
    assert!(matches!(route(&sleep), Route::Sleep));
    let other = vec!["GET /sleepy HTTP/1.1".to_string()];
    assert!(matches!(route(&other), Route::NotFound));
    let double_space = vec!["GET  / HTTP/1.1".to_string()];
    assert!(matches!(route(&double_space), Route::NotFound));
}

#[test]
fn it_draws_simple_button() {
    let control = Control::new(ControlType::Button);
    assert_eq!(control.draw(), "Draw control");
    assert_eq!(1 + 1, 2);
}
