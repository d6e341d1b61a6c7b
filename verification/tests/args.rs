use image_combiner::args::get_nth_arg;
use image_combiner::args::Args;

fn command_line(words: &[&str]) -> Vec<String> {
    words.iter().map(|word| word.to_string()).collect()
}

#[test]
fn an_argument_is_picked_by_its_position() {
    let argv = command_line(&["combiner", "a.png", "b.png", "out.png"]);
    assert_eq!(get_nth_arg(&argv, 0), "combiner");
    assert_eq!(get_nth_arg(&argv, 1), "a.png");
    assert_eq!(get_nth_arg(&argv, 3), "out.png");
}

#[test]
fn a_missing_argument_is_the_empty_string() {
    let argv = command_line(&["combiner", "a.png"]);
    assert_eq!(get_nth_arg(&argv, 2), "");
    assert_eq!(get_nth_arg(&argv, usize::MAX), "");
    assert_eq!(get_nth_arg(&Vec::new(), 0), "");
}

#[test]
fn three_arguments_fill_the_three_fields() {
    let args = Args::new(&command_line(&["combiner", "a.png", "b.png", "out.png", "extra"]));
    assert_eq!(args.image1, "a.png");
    assert_eq!(args.image2, "b.png");
    assert_eq!(args.output, "out.png");
}

#[test]
fn missing_arguments_leave_their_fields_empty() {
    let args = Args::new(&command_line(&["combiner", "a.png"]));
    assert_eq!(args.image1, "a.png");
    assert_eq!(args.image2, "");
    assert_eq!(args.output, "");
    let none = Args::new(&Vec::new());
    assert_eq!(none.image1, "");
    assert_eq!(none.image2, "");
    assert_eq!(none.output, "");
}
