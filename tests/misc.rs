use rustbook::functional::{add_one, do_twice, Cacher, Counter};
use rustbook::guess::{Game, Guess, Verdict};
use rustbook::shapes::{Rect, Rectangle};
use rustbook::summary::{read_more_from, NewsArticle, Summarizable, Tweet};
use rustbook::text::{append_length, calculate_length, length, longest};

#[test]
fn guess_verdicts() {
    let game = Game::with_secret(42);
    assert_eq!(Verdict::TooSmall, game.check(&Guess::new(1)));
    assert_eq!(Verdict::TooBig, game.check(&Guess::new(100)));
    assert_eq!(Verdict::Win, game.check(&Guess::new(42)));
    assert_eq!(42, Guess::new(42).value());
}

#[test]
fn random_secret_is_one_of_a_hundred() {
    for _ in 0..20 {
        let game = Game::new();
        let wins = (1..=100u32)
            .filter(|&g| game.check(&Guess::new(g)) == Verdict::Win)
            .count();
        assert_eq!(1, wins);
    }
}

#[test]
fn rectangles() {
    let rect1 = Rectangle::ctor(100, 100);
    let rect2 = Rectangle::square(50);
    let rect3 = Rectangle { width: 100, ..rect1 };
    assert_eq!(10000, rect1.area());
    assert_eq!(2500, rect2.area());
    assert!(rect1.can_hold(&rect2));
    assert!(!rect2.can_hold(&rect1));
    assert!(!rect1.can_hold(&rect3));
    let rect = Rect::new(2, 3);
    assert_eq!(6, rect.area());
    let neg = Rect::new(-2, 3);
    assert_eq!(-6, neg.area());
    let strings = Rect::new(String::from("2"), String::from("3"));
    assert_eq!("2", strings.width);
}

#[test]
fn longest_prefers_more_bytes() {
    assert_eq!("abcd", longest("abcd", "xyz"));
    assert_eq!("xyz", longest("ab", "xyz"));
    assert_eq!("xy", longest("ab", "xy"));
    assert_eq!("é", longest("é", "a"));
}

#[test]
fn lengths_in_bytes() {
    let (len, s) = calculate_length(String::from("another value edited"));
    assert_eq!(20, len);
    assert_eq!("another value edited", s);
    assert_eq!(2, length(&String::from("é")));
    let mut e = String::from("text with length: ");
    append_length(&mut e);
    assert_eq!("text with length: 18", e);
    let mut empty = String::new();
    append_length(&mut empty);
    assert_eq!("0", empty);
}

#[test]
fn cacher_keeps_first_result() {
    let mut c = Cacher::new(|num| num * 2);
    assert_eq!(20, c.value(10));
    assert_eq!(20, c.value(3));
}

#[test]
fn counter_counts_below_max() {
    let mut c = Counter::new(5);
    assert_eq!(Some(1), c.next());
    assert_eq!(Some(2), c.next());
    assert_eq!(Some(3), c.next());
    assert_eq!(Some(4), c.next());
    assert_eq!(None, c.next());
    assert_eq!(None, c.next());
    let mut z = Counter::new(0);
    assert_eq!(None, z.next());
}

#[test]
fn counter_products_sum() {
    let mut a = Counter::new(5);
    let mut b = Counter::new(5);
    b.next();
    let mut sum = 0u32;
    while let (Some(x), Some(y)) = (a.next(), b.next()) {
        if (x * y) % 3 == 0 {
            sum += x * y;
        }
    }
    assert_eq!(18, sum);
}

#[test]
fn do_twice_adds_both_results() {
    assert_eq!(6, do_twice(add_one, 2));
    assert_eq!(-2, do_twice(|x| x - 1, 0));
}

#[test]
fn summaries() {
    let tweet = Tweet {
        username: String::from("horse_ebooks"),
        content: String::from("of course"),
        reply: false,
        retweet: false,
    };
    assert_eq!("horse_ebooks: of course", tweet.summary());
    assert_eq!("User: horse_ebooks", tweet.author_summary());
    assert_eq!("Tweet from horse_ebooks: of course", tweet.display());
    let article = NewsArticle {
        headline: String::from("Penguins win"),
        location: String::from("Pittsburgh"),
        author: String::from("Iceburgh"),
        content: String::from("The Pittsburgh Penguins once again are the best team."),
    };
    assert_eq!("Author: Iceburgh", article.author_summary());
    assert_eq!("(Read more from Author: Iceburgh...)", article.summary());
    assert_eq!("(Read more from x...)", read_more_from("x"));
}
