use vstd::prelude::*;

verus! {

/// The per-session cursor: the part being read and the index of the dialogue
/// within it.
#[derive(Debug)]
pub struct State {
    pub current_part: Option<String>,
    pub current_dialogue: Option<usize>,
}

/// A position in the story: a part and a dialogue within it.
#[derive(Debug)]
pub struct DialogueIndex {
    pub part_key: String,
    pub dialogue_index: usize,
}

/// The failures of advancing through a story.
#[derive(Debug)]
pub enum StoryError {
    /// A dialogue index past the end of a part's dialogues.
    DialogueDoesNotExist { dialogue_index: usize, part_key: String },
    /// A choice index that does not name one of the dialogue's choices.
    ChoiceDoesNotExist { choice_index: Option<usize> },
    /// Nothing more follows from the current position.
    EndOfStory,
}

/// The unpositioned state: no part, no dialogue.
pub open spec fn reset_state() -> State {
    State { current_part: None, current_dialogue: None }
}

impl State {
    pub fn new() -> (r: State)
        ensures
            r == reset_state(),
    {
        State { current_part: None, current_dialogue: None }
    }

    pub fn current_part(&self) -> (r: &Option<String>)
        ensures
            *r == self.current_part,
    {
        &self.current_part
    }

    pub fn current_dialogue(&self) -> (r: Option<usize>)
        ensures
            r == self.current_dialogue,
    {
        self.current_dialogue
    }

    /// Clears both the part and the dialogue.
    pub fn reset(&mut self)
        ensures
            *final(self) == reset_state(),
    {
        self.current_part = None;
        self.current_dialogue = None;
    }
}

/// One option of a choice point, with the part it leads to, if any.
#[derive(Debug)]
pub struct Choice {
    pub text: String,
    pub next_part: Option<String>,
}

/// One step of a part: what is said, and the choices offered after it.
#[derive(Debug)]
pub struct Dialogue {
    pub quotes: Vec<String>,
    pub choices: Vec<Choice>,
}

/// What advancing past dialogue `d` with a choice gives: without choices the
/// part goes on; otherwise the chosen option's jump target, if the choice
/// names an option.
pub open spec fn dialogue_outcome(d: Dialogue, choice_index: Option<usize>) -> Result<
    Option<String>,
    StoryError,
> {
    if d.choices@.len() == 0 {
        Ok(None)
    } else {
        match choice_index {
            Some(c) if c < d.choices@.len() => Ok(d.choices@[c as int].next_part),
            _ => Err(StoryError::ChoiceDoesNotExist { choice_index }),
        }
    }
}

impl Dialogue {
    /// The jump target that leaving this dialogue with `choice_index` gives,
    /// `None` to go on within the part.
    pub fn next(&self, choice_index: Option<usize>) -> (r: Result<Option<String>, StoryError>)
        ensures
            r == dialogue_outcome(*self, choice_index),
    {
        if self.choices.len() == 0 {
            return Ok(None);
        }
        match choice_index {
            Some(c) => if c < self.choices.len() {
                match &self.choices[c].next_part {
                    Some(p) => Ok(Some(p.clone())),
                    None => Ok(None),
                }
            } else {
                Err(StoryError::ChoiceDoesNotExist { choice_index })
            },
            None => Err(StoryError::ChoiceDoesNotExist { choice_index }),
        }
    }
}

/// A named, ordered sequence of dialogues.
#[derive(Debug)]
pub struct Part {
    id: String,
    dialogues: Vec<Dialogue>,
}

/// A part under construction.
#[derive(Debug)]
pub struct PartBuilder {
    id: String,
    dialogues: Vec<Dialogue>,
}

impl Part {
    pub closed spec fn spec_id(&self) -> String {
        self.id
    }

    pub closed spec fn spec_dialogues(&self) -> Seq<Dialogue> {
        self.dialogues@
    }

    pub fn id(&self) -> (r: &String)
        ensures
            *r == self.spec_id(),
    {
        &self.id
    }

    pub fn dialogues(&self) -> (r: &Vec<Dialogue>)
        ensures
            r@ == self.spec_dialogues(),
    {
        &self.dialogues
    }

    /// The dialogue at `index`, or `DialogueDoesNotExist` past the end.
    pub fn dialogue(&self, index: usize) -> (r: Result<&Dialogue, StoryError>)
        ensures
            index < self.spec_dialogues().len() ==> r == Ok::<&Dialogue, StoryError>(
                &self.spec_dialogues()[index as int],
            ),
            index >= self.spec_dialogues().len() ==> r == Err::<&Dialogue, StoryError>(
                StoryError::DialogueDoesNotExist { dialogue_index: index, part_key: self.spec_id() },
            ),
    {
        if index < self.dialogues.len() {
            Ok(&self.dialogues[index])
        } else {
            Err(StoryError::DialogueDoesNotExist { dialogue_index: index, part_key: self.id.clone() })
        }
    }
}

impl PartBuilder {
    pub closed spec fn spec_id(&self) -> String {
        self.id
    }

    pub closed spec fn spec_dialogues(&self) -> Seq<Dialogue> {
        self.dialogues@
    }

    pub fn new(id: String) -> (r: PartBuilder)
        ensures
            r.spec_id() == id,
            r.spec_dialogues() == Seq::<Dialogue>::empty(),
    {
        PartBuilder { id, dialogues: Vec::new() }
    }

    /// Appends a dialogue at the end.
    pub fn add_dialogue(self, dialogue: Dialogue) -> (r: PartBuilder)
        ensures
            r.spec_id() == self.spec_id(),
            r.spec_dialogues() == self.spec_dialogues().push(dialogue),
    {
        let mut b = self;
        b.dialogues.push(dialogue);
        b
    }

    /// The part with the id and the dialogues given, in the order added.
    pub fn build(self) -> (r: Part)
        ensures
            r.spec_id() == self.spec_id(),
            r.spec_dialogues() == self.spec_dialogues(),
    {
        Part { id: self.id, dialogues: self.dialogues }
    }
}

/// One transition of a part: the state after it and what it returns.
pub open spec fn part_step(p: Part, s: State, choice_index: Option<usize>) -> (State, Result<
    DialogueIndex,
    StoryError,
>) {
    let ds = p.spec_dialogues();
    match s.current_dialogue {
        None => if ds.len() > 0 {
            (
                State { current_dialogue: Some(0), ..s },
                Ok(DialogueIndex { part_key: p.spec_id(), dialogue_index: 0 }),
            )
        } else {
            (reset_state(), Err(StoryError::EndOfStory))
        },
        Some(i) => if i >= ds.len() {
            (s, Err(StoryError::DialogueDoesNotExist { dialogue_index: i, part_key: p.spec_id() }))
        } else {
            match dialogue_outcome(ds[i as int], choice_index) {
                Err(e) => (s, Err(e)),
                Ok(Some(target)) => (
                    State { current_part: Some(target), current_dialogue: Some(0) },
                    Ok(DialogueIndex { part_key: target, dialogue_index: 0 }),
                ),
                Ok(None) => if i + 1 < ds.len() {
                    (
                        State { current_dialogue: Some((i + 1) as usize), ..s },
                        Ok(DialogueIndex { part_key: p.spec_id(), dialogue_index: (i + 1) as usize }),
                    )
                } else {
                    (reset_state(), Err(StoryError::EndOfStory))
                },
            }
        },
    }
}

/// From the unpositioned cursor, a part with dialogues enters its first
/// dialogue.
pub proof fn lemma_bootstrap(p: Part, s: State, choice_index: Option<usize>)
    requires
        p.spec_dialogues().len() >= 1,
        s.current_dialogue is None,
    ensures
        part_step(p, s, choice_index).1 == Ok::<DialogueIndex, StoryError>(
            DialogueIndex { part_key: p.spec_id(), dialogue_index: 0 },
        ),
        part_step(p, s, choice_index).0.current_dialogue == Some(0usize),
{
}

/// A part of one dialogue that always goes on is entered by the first step
/// and ended by the second, which leaves the cursor unpositioned.
pub proof fn lemma_single_dialogue_ends(
    p: Part,
    s: State,
    first_choice: Option<usize>,
    second_choice: Option<usize>,
)
    requires
        p.spec_dialogues().len() == 1,
        forall|c: Option<usize>| dialogue_outcome(p.spec_dialogues()[0], c) == Ok::<Option<String>, StoryError>(None),
        s.current_dialogue is None,
    ensures
        part_step(p, s, first_choice).1 == Ok::<DialogueIndex, StoryError>(
            DialogueIndex { part_key: p.spec_id(), dialogue_index: 0 },
        ),
        part_step(p, part_step(p, s, first_choice).0, second_choice).1 == Err::<DialogueIndex, StoryError>(StoryError::EndOfStory),
        part_step(p, part_step(p, s, first_choice).0, second_choice).0 == reset_state(),
{
    assert(dialogue_outcome(p.spec_dialogues()[0], second_choice) == Ok::<Option<String>, StoryError>(None));
}

/// When the entered dialogue names another part, the next step moves to the
/// first dialogue of that part, whether or not such a part exists.
pub proof fn lemma_jump(
    p: Part,
    s: State,
    first_choice: Option<usize>,
    second_choice: Option<usize>,
    target: String,
)
    requires
        p.spec_dialogues().len() >= 1,
        dialogue_outcome(p.spec_dialogues()[0], second_choice) == Ok::<Option<String>, StoryError>(Some(target)),
        s.current_dialogue is None,
    ensures
        part_step(p, part_step(p, s, first_choice).0, second_choice).1 == Ok::<DialogueIndex, StoryError>(
            DialogueIndex { part_key: target, dialogue_index: 0 },
        ),
        part_step(p, part_step(p, s, first_choice).0, second_choice).0 == (State {
            current_part: Some(target),
            current_dialogue: Some(0usize),
        }),
{
}

/// A part without dialogues never yields a position, and from the
/// unpositioned cursor it ends the story at once.
pub proof fn lemma_empty_part(p: Part, s: State, choice_index: Option<usize>)
    requires
        p.spec_dialogues().len() == 0,
    ensures
        part_step(p, s, choice_index).1 is Err,
        s.current_dialogue is None ==> part_step(p, s, choice_index) == (
            reset_state(),
            Err::<DialogueIndex, StoryError>(StoryError::EndOfStory),
        ),
{
}

impl Part {
    /// Advances `state` by one step within this part: enters the first
    /// dialogue, jumps to the part that the current dialogue names, or moves
    /// to the next dialogue. With nothing left it resets `state` and returns
    /// `EndOfStory`; on any other failure `state` is left unchanged.
    pub fn next(&self, state: &mut State, choice_index: Option<usize>) -> (r: Result<
        DialogueIndex,
        StoryError,
    >)
        ensures
            (*final(state), r) == part_step(*self, *old(state), choice_index),
            r is Err ==> *final(state) == *old(state) || *final(state) == reset_state(),
            r matches Err(StoryError::EndOfStory) ==> *final(state) == reset_state(),
    {
        match state.current_dialogue() {
            None => {
                if self.dialogues.len() > 0 {
                    state.current_dialogue = Some(0);
                    return Ok(DialogueIndex { part_key: self.id.clone(), dialogue_index: 0 });
                }
            },
            Some(i) => {
                let len = self.dialogues.len();
                let dialogue = match self.dialogue(i) {
                    Ok(d) => d,
                    Err(e) => {
                        return Err(e);
                    },
                };
                match dialogue.next(choice_index) {
                    Err(e) => {
                        return Err(e);
                    },
                    Ok(Some(target)) => {
                        state.current_part = Some(target.clone());
                        state.current_dialogue = Some(0);
                        return Ok(DialogueIndex { part_key: target, dialogue_index: 0 });
                    },
                    Ok(None) => {
                        let n = i + 1;
                        if n < len {
                            state.current_dialogue = Some(n);
                            return Ok(DialogueIndex { part_key: self.id.clone(), dialogue_index: n });
                        }
                    },
                }
            },
        }
        state.reset();
        Err(StoryError::EndOfStory)
    }
}

} // verus!
