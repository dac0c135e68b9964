use fabulist::story::{Choice, Dialogue, Part, PartBuilder, State, StoryError};

fn plain() -> Dialogue {
    Dialogue { quotes: vec!["Hello.".to_string()], choices: vec![] }
}

fn jump_to(target: &str) -> Dialogue {
    Dialogue {
        quotes: vec!["Where to?".to_string()],
        choices: vec![Choice { text: "Go".to_string(), next_part: Some(target.to_string()) }],
    }
}

#[test]
fn bootstrap_enters_first_dialogue() {
    let part = PartBuilder::new("intro".to_string()).add_dialogue(plain()).add_dialogue(plain()).build();
    let mut state = State::new();
    let at = part.next(&mut state, None).unwrap();
    assert_eq!(at.part_key, "intro");
    assert_eq!(at.dialogue_index, 0);
    assert_eq!(state.current_dialogue(), Some(0));
}

#[test]
fn sequential_advance_then_end() {
    let part = PartBuilder::new("intro".to_string()).add_dialogue(plain()).add_dialogue(plain()).build();
    let mut state = State::new();
    part.next(&mut state, None).unwrap();
    let at = part.next(&mut state, None).unwrap();
    assert_eq!((at.part_key.as_str(), at.dialogue_index), ("intro", 1));
    assert_eq!(state.current_dialogue(), Some(1));
    assert!(matches!(part.next(&mut state, None), Err(StoryError::EndOfStory)));
    assert_eq!(state.current_dialogue(), None);
}

#[test]
fn single_dialogue_part_ends_on_second_call() {
    let part = PartBuilder::new("A".to_string()).add_dialogue(plain()).build();
    let mut state = State::new();
    let at = part.next(&mut state, None).unwrap();
    assert_eq!(at.dialogue_index, 0);
    assert!(matches!(part.next(&mut state, None), Err(StoryError::EndOfStory)));
    assert_eq!(state.current_part(), &None);
    assert_eq!(state.current_dialogue(), None);
}

#[test]
fn jump_moves_to_named_part() {
    let part = PartBuilder::new("A".to_string()).add_dialogue(jump_to("B")).build();
    let mut state = State::new();
    part.next(&mut state, None).unwrap();
    let at = part.next(&mut state, Some(0)).unwrap();
    assert_eq!(at.part_key, "B");
    assert_eq!(at.dialogue_index, 0);
    assert_eq!(state.current_part(), &Some("B".to_string()));
    assert_eq!(state.current_dialogue(), Some(0));
}

#[test]
fn missing_dialogue_is_reported() {
    let part = PartBuilder::new("A".to_string()).add_dialogue(plain()).add_dialogue(plain()).build();
    match part.dialogue(5) {
        Err(StoryError::DialogueDoesNotExist { dialogue_index, part_key }) => {
            assert_eq!(dialogue_index, 5);
            assert_eq!(part_key, "A");
        },
        _ => panic!("expected DialogueDoesNotExist"),
    }
    assert!(part.dialogue(1).is_ok());
}

#[test]
fn empty_part_ends_at_once() {
    let part = PartBuilder::new("empty".to_string()).build();
    let mut state = State::new();
    assert!(matches!(part.next(&mut state, None), Err(StoryError::EndOfStory)));
    assert_eq!(state.current_dialogue(), None);
    assert!(matches!(part.next(&mut state, Some(3)), Err(StoryError::EndOfStory)));
}

#[test]
fn stale_cursor_leaves_state_unchanged() {
    let part = PartBuilder::new("A".to_string()).add_dialogue(plain()).build();
    let mut state = State { current_part: Some("A".to_string()), current_dialogue: Some(4) };
    assert!(matches!(
        part.next(&mut state, None),
        Err(StoryError::DialogueDoesNotExist { dialogue_index: 4, .. })
    ));
    assert_eq!(state.current_dialogue(), Some(4));
}

#[test]
fn invalid_choice_is_reported() {
    let part = PartBuilder::new("A".to_string()).add_dialogue(jump_to("B")).build();
    let mut state = State::new();
    part.next(&mut state, None).unwrap();
    assert!(matches!(part.next(&mut state, Some(2)), Err(StoryError::ChoiceDoesNotExist { choice_index: Some(2) })));
    assert!(matches!(part.next(&mut state, None), Err(StoryError::ChoiceDoesNotExist { choice_index: None })));
    assert_eq!(state.current_dialogue(), Some(0));
}

#[test]
fn builder_keeps_order() {
    let part = PartBuilder::new("p".to_string()).add_dialogue(plain()).add_dialogue(jump_to("q")).build();
    assert_eq!(part.id(), "p");
    assert_eq!(part.dialogues().len(), 2);
    assert_eq!(part.dialogues()[1].choices.len(), 1);
    assert_eq!(part.dialogue(1).unwrap().next(Some(0)).unwrap(), Some("q".to_string()));
}
