use funnybot::FunnyBot;
use funnybot::GeneratorSource;
use funnybot::ListSource;
use funnybot::RepeatSource;
use funnybot::ResultSource;
use std::cell::Cell;

/// Counts down from a start value, then runs dry.
struct Countdown {
    left: u32,
}

impl ResultSource for Countdown {
    type Item = u32;

    fn exhausted(&self) -> bool {
        self.left == 0
    }

    fn yields(&self, r: u32, next: &Self) -> bool {
        self.left > 0 && r == self.left && next.left == self.left - 1
    }

    fn pull(&mut self) -> Option<u32> {
        if self.left == 0 {
            None
        } else {
            self.left -= 1;
            Some(self.left + 1)
        }
    }
}

#[test]
fn list_answers_in_order_and_keeps_the_arguments() {
    let mut bot = FunnyBot::from_list(vec![10, 20]);
    assert_eq!(bot.call("x"), 10);
    assert_eq!(bot.call("y"), 20);
    assert_eq!(bot.into_args(), vec!["x", "y"]);
}

#[test]
fn repeat_answers_five_calls_alike() {
    let mut bot = FunnyBot::repeat("ok");
    for arg in 0..5 {
        assert_eq!(bot.call(arg), "ok");
    }
    assert_eq!(bot.args().len(), 5);
    assert_eq!(bot.into_args(), vec![0, 1, 2, 3, 4]);
}

#[test]
fn single_answers_once_then_is_exhausted() {
    let mut bot = FunnyBot::from_single(42);
    assert_eq!(bot.call("first"), 42);
    assert_eq!(bot.try_call("second"), None);
}

#[test]
fn into_args_yields_every_argument_in_call_order() {
    let mut bot = FunnyBot::repeat(0u8);
    let sent: Vec<String> = vec!["c".to_string(), "a".to_string(), "b".to_string(), "a".to_string()];
    for arg in sent.iter() {
        bot.call(arg.clone());
    }
    assert_eq!(bot.into_args(), sent);
}

#[test]
fn fresh_recorder_has_an_empty_log() {
    let bot: FunnyBot<u8, _> = FunnyBot::from_list(vec![1u8, 2u8]);
    assert!(bot.args().is_empty());
    assert_eq!(bot.into_args(), Vec::<u8>::new());
}

#[test]
fn repeat_duplicates_an_owned_value_and_never_ends() {
    let mut bot = FunnyBot::repeat(String::from("again"));
    for arg in 0..1000u32 {
        assert_eq!(bot.try_call(arg), Some(String::from("again")));
    }
    assert_eq!(bot.args().len(), 1000);
}

#[test]
fn repeat_with_no_call_records_nothing() {
    let bot: FunnyBot<u32, _> = FunnyBot::repeat('v');
    assert_eq!(bot.into_args(), Vec::<u32>::new());
}

#[test]
fn list_of_three_fails_the_fourth_call() {
    let mut bot = FunnyBot::from_list(vec!['a', 'b', 'c']);
    assert_eq!(bot.try_call(1), Some('a'));
    assert_eq!(bot.try_call(2), Some('b'));
    assert_eq!(bot.try_call(3), Some('c'));
    assert_eq!(bot.try_call(4), None);
}

#[test]
fn exhaustion_is_terminal() {
    let mut bot = FunnyBot::from_single(7);
    assert_eq!(bot.call(()), 7);
    assert_eq!(bot.try_call(()), None);
    assert_eq!(bot.try_call(()), None);
    assert_eq!(bot.try_call(()), None);
}

#[test]
fn unanswered_call_is_recorded_all_the_same() {
    let mut bot = FunnyBot::from_list(vec![1]);
    assert_eq!(bot.try_call("answered"), Some(1));
    assert_eq!(bot.try_call("unanswered"), None);
    assert_eq!(bot.into_args(), vec!["answered", "unanswered"]);
}

#[test]
fn empty_list_answers_no_call() {
    let mut bot = FunnyBot::from_list(Vec::<i32>::new());
    assert_eq!(bot.try_call(0), None);
    assert_eq!(bot.args().len(), 1);
}

#[test]
fn list_keeps_duplicates_and_order() {
    let mut bot = FunnyBot::from_list(vec![3, 1, 3, 2]);
    let mut got: Vec<i32> = Vec::new();
    for arg in 0..4 {
        got.push(bot.call(arg));
    }
    assert_eq!(got, vec![3, 1, 3, 2]);
    assert_eq!(bot.try_call(4), None);
}

#[test]
fn generator_is_invoked_once_per_call() {
    let counter = Cell::new(0);
    let mut bot = FunnyBot::repeat_with(|| {
        let now: i32 = counter.get();
        counter.set(now + 1);
        now
    });
    assert_eq!(bot.call("a"), 0);
    assert_eq!(bot.call("b"), 1);
    assert_eq!(bot.call("c"), 2);
    assert_eq!(counter.get(), 3);
    assert_eq!(bot.into_args(), vec!["a", "b", "c"]);
}

#[test]
fn generator_is_not_invoked_before_the_first_call() {
    let counter = Cell::new(0);
    let bot: FunnyBot<u8, _> = FunnyBot::repeat_with(|| {
        counter.set(counter.get() + 1);
        String::from("made")
    });
    assert_eq!(counter.get(), 0);
    assert!(bot.args().is_empty());
}

#[test]
fn generator_makes_values_that_cannot_be_duplicated() {
    struct Token(u8);
    let mut bot = FunnyBot::repeat_with(|| Token(9));
    let first: Token = bot.call(1);
    let second: Token = bot.call(2);
    assert_eq!(first.0 + second.0, 18);
}

#[test]
fn args_shows_the_calls_so_far_and_leaves_the_source_alone() {
    let mut bot = FunnyBot::from_list(vec![10, 20, 30]);
    assert_eq!(bot.call("x"), 10);
    assert_eq!(bot.args(), &vec!["x"]);
    assert_eq!(bot.args(), &vec!["x"]);
    assert_eq!(bot.call("y"), 20);
    assert_eq!(bot.args(), &vec!["x", "y"]);
    assert_eq!(bot.call("z"), 30);
    assert_eq!(bot.into_args(), vec!["x", "y", "z"]);
}

#[test]
fn log_length_equals_the_number_of_pulls() {
    let pulls = Cell::new(0usize);
    let mut bot = FunnyBot::repeat_with(|| pulls.set(pulls.get() + 1));
    for n in 0..17usize {
        assert_eq!(bot.args().len(), n);
        assert_eq!(pulls.get(), n);
        bot.call(n);
    }
    assert_eq!(bot.args().len(), 17);
    assert_eq!(pulls.get(), 17);
}

#[test]
fn new_takes_any_source() {
    let mut bot = FunnyBot::new(Countdown { left: 2 });
    assert_eq!(bot.call('a'), 2);
    assert_eq!(bot.call('b'), 1);
    assert_eq!(bot.try_call('c'), None);
    assert_eq!(bot.into_args(), vec!['a', 'b', 'c']);
}

#[test]
fn custom_source_describes_its_own_pulls() {
    let mut source = Countdown { left: 3 };
    let before = Countdown { left: 3 };
    assert!(!source.exhausted());
    let out: Option<u32> = source.pull();
    assert_eq!(out, Some(3));
    assert!(before.yields(3, &source));
    assert!(!before.yields(2, &source));
}

#[test]
fn new_with_a_list_source_is_from_list() {
    let mut bot = FunnyBot::new(ListSource::new(vec![5, 6]));
    assert_eq!(bot.call(()), 5);
    assert_eq!(bot.call(()), 6);
    assert_eq!(bot.try_call(()), None);
}

#[test]
fn list_source_hands_out_front_first() {
    let mut source = ListSource::new(vec!["one", "two", "three"]);
    assert_eq!(source.pull(), Some("one"));
    assert_eq!(source.pull(), Some("two"));
    assert_eq!(source.pull(), Some("three"));
    assert_eq!(source.pull(), None);
    assert_eq!(source.pull(), None);
}

#[test]
fn repeat_source_hands_out_the_value_each_time() {
    let mut source = RepeatSource::new(vec![1, 2]);
    assert_eq!(source.pull(), Some(vec![1, 2]));
    assert_eq!(source.pull(), Some(vec![1, 2]));
}

#[test]
fn generator_source_invokes_the_generator() {
    let calls = Cell::new(10);
    let mut source = GeneratorSource::new(|| {
        calls.set(calls.get() * 2);
        calls.get()
    });
    assert_eq!(source.pull(), Some(20));
    assert_eq!(source.pull(), Some(40));
}
