use std::cell::RefCell;
use std::collections::HashMap;

use rust_lessons::collections::{
    concatenation, describe_found, get_shape, is_vowel, median_of, mode_of, ternary_func, to_pig_latin,
};
use rust_lessons::delivery::{Delivery, Fedex, UPS};
use rust_lessons::generics::{produce_char_point, produce_point, PointInfo, Super};
use rust_lessons::pointers::{cons_values, CustomBox, List};
use rust_lessons::records::{define_new_user, get_color, IpAddress, Rectangle, Shape};
use rust_lessons::registry::{employee_exists, Employee};
use rust_lessons::shape::{size_description, Attributes, Type};
use rust_lessons::slices::{bytes_as_chars, last_char_from_text, split, utf_8_values};
use rust_lessons::text::decimal_text;
use rust_lessons::workout::{generate_workout, judge, Verdict, Workout};

#[test]
fn decimal_numbers() {
    assert_eq!(decimal_text(0), "0");
    assert_eq!(decimal_text(7), "7");
    assert_eq!(decimal_text(10), "10");
    assert_eq!(decimal_text(1204), "1204");
    assert_eq!(decimal_text(u64::MAX), "18446744073709551615");
}

#[test]
fn shape_sizes_as_text() {
    assert_eq!(size_description(&Attributes { width: 3, height: 45 }), "Width: 3, Height: 45");
    assert_eq!(Type::Circle(Attributes { width: 0, height: 0 }).describe(), "Width: 0, Height: 0");
    assert_eq!(Type::Unknown.describe(), "Width: Invalid, Height: Invalid");
}

#[test]
fn median_of_lists() {
    assert_eq!(median_of(&vec![]), vec![-1]);
    assert_eq!(median_of(&vec![1, 2, 3, 4, 5]), vec![3]);
    assert_eq!(median_of(&vec![1, 2, 3, 4, 5, 6]), vec![3, 4]);
    assert_eq!(median_of(&vec![9]), vec![9]);
}

#[test]
fn mode_of_lists() {
    assert_eq!(mode_of(&vec![1, 1, 2, 2, 3, 3, 3]), 3);
    assert_eq!(mode_of(&vec![]), 0);
    assert_eq!(mode_of(&vec![5]), 5);
    assert_eq!(mode_of(&vec![-1, -1, 4]), usize::MAX);
    let tied = mode_of(&vec![2, 7, 2, 7]);
    assert!(tied == 2 || tied == 7);
}

#[test]
fn vowels() {
    for c in ['a', 'e', 'i', 'o', 'u', 'A', 'E', 'I', 'O', 'U'] {
        assert!(is_vowel(&c), "{}", c);
    }
    for c in ['b', 'y', 'Z', ' ', '1', 'á'] {
        assert!(!is_vowel(&c), "{}", c);
    }
    // Only the low byte of the code counts: U+0161 ends in 0x61, an 'a'.
    assert!(is_vowel(&'\u{161}'));
}

#[test]
fn pig_latin_words() {
    assert_eq!(to_pig_latin("asd"), "asd-hay");
    assert_eq!(to_pig_latin("first"), "irst-fay");
    assert_eq!(to_pig_latin("apple"), "apple-hay");
    assert_eq!(to_pig_latin(""), "");
    assert_eq!(to_pig_latin("b"), "-bay");
}

#[test]
fn small_strings() {
    assert_eq!(ternary_func(true), "Valid!");
    assert_eq!(ternary_func(false), "Invalid!");
    assert_eq!(concatenation(" than you think"), "Longer string than you think");
}

#[test]
fn shapes_found_in_a_map() {
    let mut map: HashMap<&str, Type> = HashMap::new();
    map.insert("triangle", Type::create("triangle").unwrap());
    map.insert("square", Type::Rectangle(Attributes { width: 2, height: 3 }));
    assert_eq!(get_shape(&map, "triangle"), "Triangle - w: 0, h: 0");
    assert_eq!(get_shape(&map, "square"), "Triangle - w: 2, h: 3");
    assert_eq!(get_shape(&map, "this_shape"), "Non existant shape 🤷‍♀️");
    assert_eq!(describe_found(Some(&Type::Square(Attributes { width: 1, height: 1 }))), "Square - w: 1, h: 1");
    assert_eq!(describe_found(Some(&Type::Unknown)), "Non existant shape 🤷‍♀️");
}

#[test]
fn records_as_text() {
    let rectangle = Rectangle { shape: Shape { width: 30, height: 50 } };
    assert_eq!(rectangle.get_area(), 1500);
    assert_eq!(rectangle.describe(), "Rectangle -> Width: 30, Height: 50, Area: 1500");
    assert!(rectangle.can_hold(&Rectangle { shape: Shape { width: 10, height: 40 } }));
    assert!(!rectangle.can_hold(&Rectangle { shape: Shape { width: 10, height: 50 } }));
    let steve = define_new_user("Steve", "steve@example.com");
    assert_eq!(steve.describe(), "User - User: Steve, Email: steve@example.com, Sign In Count: 0, Active: false");
    assert_eq!(get_color(1, 2, 3).describe(), "Red: 1, Green: 2, Blue: 3");
}

#[test]
fn ip_addresses() {
    let v4 = IpAddress::V4(String::from("127.0.0.1"));
    let v6 = IpAddress::V6(String::from("::1"));
    let split = IpAddress::V4SPLIT(127, 0, 0, 1);
    assert_eq!(v4.version(), "v4");
    assert_eq!(v6.version(), "v6");
    assert_eq!(split.version(), "v4");
    assert_eq!(split.address(), "127,0,0,1");
    assert_eq!(v6.describe(), "Address: ::1, Version: v6");
    assert_eq!(split.describe(), "Address: 127,0,0,1, Version: v4");
}

#[test]
fn employees_by_name() {
    let mut registry: HashMap<&str, Vec<Employee>> = HashMap::new();
    registry.insert("engineering", vec![]);
    registry.insert(
        "management",
        vec![Employee { name: String::from("Ana"), department: String::from("management") }],
    );
    assert!(employee_exists("Ana", &registry));
    assert!(!employee_exists("Bo", &registry));
    assert!(!employee_exists("Ana", &HashMap::new()));
    let ana = &registry["management"][0];
    assert_eq!(ana.describe(), "Employee: Ana, Department: management\n");
}

#[test]
fn workouts() {
    let calls = RefCell::new(0);
    let slow = |n: u8| {
        *calls.borrow_mut() += 1;
        n
    };
    assert_eq!(generate_workout(10, 3, &slow), Workout::Strength { pushups: 10, situps: 10 });
    assert_eq!(*calls.borrow(), 1);
    assert_eq!(generate_workout(30, 3, &slow), Workout::Rest);
    assert_eq!(generate_workout(30, 4, &slow), Workout::Run { minutes: 30 });
    assert_eq!(*calls.borrow(), 2);
}

#[test]
fn guesses() {
    assert_eq!(judge(3, 7), Verdict::TooSmall);
    assert_eq!(judge(9, 7), Verdict::TooBig);
    assert_eq!(judge(7, 7), Verdict::Win);
}

#[test]
fn it_splits_a_list_safely_from_an_unsafe_block() {
    let mut values = vec![1, 2, 3, 4, 5, 6, 7, 8];
    let (left, right) = split(&mut values, 3);
    println!("Left: {:?}", left);
    println!("Right : {:?}", right);
    assert_eq!(left, &[1, 2, 3]);
    right[0] = 40;
    assert_eq!(values, vec![1, 2, 3, 40, 5, 6, 7, 8]);
}

#[test]
fn bytes_read_as_characters() {
    let codes: Vec<u32> = utf_8_values().chars().map(|c| c as u32).collect();
    let bytes: Vec<u32> = "नमस्ते".bytes().map(|b| b as u32).collect();
    assert_eq!(codes, bytes);
    assert_eq!(codes.len(), 18);
    assert_eq!(bytes_as_chars("ab"), "ab");
    assert_eq!(bytes_as_chars("é"), "\u{c3}\u{a9}");
}

#[test]
fn last_character_of_first_line() {
    assert_eq!(last_char_from_text("Hello, world\nHow are you"), Some('d'));
    assert_eq!(last_char_from_text(""), None);
    assert_eq!(last_char_from_text("\nsecond"), None);
    assert_eq!(last_char_from_text("one\r\ntwo"), Some('e'));
}

#[test]
fn points_tell_about_themselves() {
    let point = produce_point(-3, 12);
    assert_eq!(point.info(), "Point<i32> info - x:-3, y: 12");
    assert_eq!(point.description(), "I'm a PointInfo!");
    let extreme = produce_point(i32::MIN, 0);
    assert_eq!(extreme.info(), "Point<i32> info - x:-2147483648, y: 0");
    let letters = produce_char_point('a', 'z');
    assert_eq!(letters.info(), "Point<char> info - x:a, y: z");
    let text = String::from("asd");
    let holder = Super { message: &text };
    assert_eq!(holder.super_info("Hey there! I'm a new super info!"), "asd");
}

#[test]
fn cons_list_values() {
    let list = List::Cons(1, Box::new(List::Cons(2, Box::new(List::Cons(3, Box::new(List::Null))))));
    assert_eq!(cons_values(&list), vec![1, 2, 3]);
    assert_eq!(cons_values(&List::Null), Vec::<i32>::new());
    let b = CustomBox::new(5);
    assert_eq!(*b.get(), 5);
}

#[test]
fn it_uses_delivery_and_delivery_company_function() {
    let fedex = Fedex { address: String::from("1234 Fedex Address") };
    let ups = UPS { address: String::from("1234 UPS Address") };
    println!("Fedex: {}", fedex.describe());
    println!("UPS: {}", ups.describe());
    assert_eq!(ups.describe(), "[UPS Address]: 1234 UPS Address");
    assert_eq!(fedex.describe(), "[Fedex Address]: 1234 Fedex Address");
    assert_eq!(<UPS as Delivery>::send(), false);
    assert_eq!(<Fedex as Delivery>::send(), false);
    assert!(UPS::send());
    assert!(Fedex::send());
}
