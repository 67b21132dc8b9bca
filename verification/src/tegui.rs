//! What the user interface renderer keeps from frame to frame, and how it answers requests.
use vstd::prelude::*;

verus! {

/// What the user interface can ask of the window during a frame.
#[derive(Copy, Clone, Debug, PartialEq, Eq, Structural)]
pub enum ActionRequested {
    Screenshot,
    Cut,
    Copy,
    Paste,
}

/// An event that the user interface gets with its next frame.
#[derive(Debug)]
pub enum InputEvent {
    Cut,
    Copy,
    Paste(String),
}

/// How a request is answered.
#[derive(Debug)]
pub enum ActionAnswer {
    /// The request is passed over.
    Nothing,
    /// The user interface gets an event.
    Event { event: InputEvent },
    /// The clipboard has to be read first.
    ReadClipboard,
}

/// How a request of the user interface is answered.
pub fn answer_action(action: ActionRequested) -> (answer: ActionAnswer)
    ensures
        answer == match action {
            ActionRequested::Screenshot => ActionAnswer::Nothing,
            ActionRequested::Cut => ActionAnswer::Event { event: InputEvent::Cut },
            ActionRequested::Copy => ActionAnswer::Event { event: InputEvent::Copy },
            ActionRequested::Paste => ActionAnswer::ReadClipboard,
        },
{
    match action {
        ActionRequested::Screenshot => ActionAnswer::Nothing,
        ActionRequested::Cut => ActionAnswer::Event { event: InputEvent::Cut },
        ActionRequested::Copy => ActionAnswer::Event { event: InputEvent::Copy },
        ActionRequested::Paste => ActionAnswer::ReadClipboard,
    }
}

/// A text without the carriage returns that a line feed follows directly.
pub open spec fn with_line_feeds(text: Seq<char>) -> Seq<char>
    decreases text.len(),
{
    if text.len() == 0 {
        Seq::empty()
    } else if text.len() >= 2 && text[0] == '\r' && text[1] == '\n' {
        seq!['\n'] + with_line_feeds(text.skip(2))
    } else {
        seq![text[0]] + with_line_feeds(text.skip(1))
    }
}

/// `String::push` appends a character.
pub assume_specification[ String::push ](text: &mut String, character: char)
    ensures
        final(text)@ == old(text)@.push(character),
;

/// The text with each pair of a carriage return and a line feed turned into a line feed.
pub fn line_feeds(text: &str) -> (converted: String)
    ensures
        converted@ == with_line_feeds(text@),
{
    let mut converted: String = String::new();
    // Whether a carriage return was read that is not in `converted` yet.
    let mut held: bool = false;
    proof {
        assert(text@.skip(0) =~= text@);
        assert(held_return(false) + text@ =~= text@);
    }
    for character in it: text.chars()
        invariant
            it.seq() == text@,
            converted@ + with_line_feeds(held_return(held) + text@.skip(it.index() as int))
                == with_line_feeds(text@),
    {
        let ghost rest = text@.skip(it.index() as int);
        let ghost before = converted@;
        let ghost was_held = held;
        proof {
            assert(rest =~= seq![character] + rest.skip(1));
            assert(rest.skip(1) =~= text@.skip(it.index() + 1));
        }
        if held && character != '\n' {
            converted.push('\r');
        }
        if character == '\r' {
            held = true;
        } else {
            converted.push(character);
            held = false;
        }
        proof {
            lemma_held_return_is_resolved(before, was_held, character, rest.skip(1));
            assert(held_return(was_held) + rest =~= held_return(was_held) + (seq![character]
                + rest.skip(1)));
            assert(converted@ =~= before + resolved(was_held, character));
        }
    }
    if held {
        converted.push('\r');
    }
    proof {
        assert(text@.skip(text@.len() as int) =~= Seq::<char>::empty());
        reveal_with_fuel(with_line_feeds, 2);
        assert(held_return(held) + Seq::<char>::empty() =~= held_return(held));
        assert(with_line_feeds(held_return(held)) =~= held_return(held));
    }
    converted
}

/// The event by which the text of the clipboard is pasted. There is none for an empty text, nor
/// where the clipboard holds no text.
pub fn paste_event(contents: Option<String>) -> (event: Option<InputEvent>)
    ensures
        match contents {
            Some(text) if text@.len() > 0 => {
                &&& event matches Some(InputEvent::Paste(pasted))
                &&& pasted@ == with_line_feeds(text@)
            },
            _ => event is None,
        },
{
    match contents {
        Some(text) => {
            let pasted = line_feeds(text.as_str());
            if pasted.as_str().is_empty() {
                None
            } else {
                Some(InputEvent::Paste(pasted))
            }
        },
        None => None,
    }
}

/// A text in which no line feed follows a carriage return is left as it is.
pub proof fn plain_text_is_kept(text: Seq<char>)
    requires
        forall|i: int, j: int|
            0 <= i < j < text.len() && j == i + 1 ==> !(#[trigger] text[i] == '\r' && #[trigger] text[j]
                == '\n'),
    ensures
        with_line_feeds(text) == text,
    decreases text.len(),
{
    if text.len() > 0 {
        let rest = text.skip(1);
        assert forall|i: int, j: int| 0 <= i < j < rest.len() && j == i + 1 implies !(
        #[trigger] rest[i] == '\r' && #[trigger] rest[j] == '\n') by {
            assert(!(text[i + 1] == '\r' && text[j + 1] == '\n'));
        }
        plain_text_is_kept(rest);
        if text.len() >= 2 {
            assert(!(text[0] == '\r' && text[1] == '\n'));
        }
        assert(seq![text[0]] + rest =~= text);
    }
}

/// The conversion works on stretches of text one by one, unless it is cut within a carriage return
/// and its line feed.
pub proof fn stretches_are_converted_one_by_one(first: Seq<char>, second: Seq<char>)
    requires
        !(first.len() > 0 && second.len() > 0 && first.last() == '\r' && second[0] == '\n'),
    ensures
        with_line_feeds(first + second) == with_line_feeds(first) + with_line_feeds(second),
    decreases first.len(),
{
    let text = first + second;
    if first.len() == 0 {
        assert(text =~= second);
        assert(with_line_feeds(first) + with_line_feeds(second) =~= with_line_feeds(second));
    } else if first.len() >= 2 && first[0] == '\r' && first[1] == '\n' {
        stretches_are_converted_one_by_one(first.skip(2), second);
        assert(text.skip(2) =~= first.skip(2) + second);
        assert(seq!['\n'] + (with_line_feeds(first.skip(2)) + with_line_feeds(second)) =~= (seq![
            '\n',
        ] + with_line_feeds(first.skip(2))) + with_line_feeds(second));
    } else {
        stretches_are_converted_one_by_one(first.skip(1), second);
        assert(text.skip(1) =~= first.skip(1) + second);
        assert(text[0] == first[0]);
        if first.len() == 1 {
            assert(first.last() == first[0]);
            if second.len() > 0 {
                assert(text[1] == second[0]);
            }
        } else {
            assert(text[1] == first[1]);
        }
        assert(seq![first[0]] + (with_line_feeds(first.skip(1)) + with_line_feeds(second)) =~= (seq![
            first[0],
        ] + with_line_feeds(first.skip(1))) + with_line_feeds(second));
    }
}

/// A carriage return and its line feed become a line feed, wherever they stand in a text, and what
/// stands before and after them is converted on its own.
pub proof fn a_pair_becomes_a_line_feed(before: Seq<char>, after: Seq<char>)
    ensures
        with_line_feeds(before + seq!['\r', '\n'] + after) == with_line_feeds(before) + seq!['\n']
            + with_line_feeds(after),
{
    let pair = seq!['\r', '\n'];
    assert(before + pair + after =~= before + (pair + after));
    assert((pair + after)[0] == '\r');
    stretches_are_converted_one_by_one(before, pair + after);
    assert((pair + after).skip(2) =~= after);
    assert(with_line_feeds(before) + (seq!['\n'] + with_line_feeds(after)) =~= with_line_feeds(before)
        + seq!['\n'] + with_line_feeds(after));
}

/// The text is empty after the conversion exactly if it was empty before.
pub proof fn only_the_empty_text_becomes_empty(text: Seq<char>)
    ensures
        with_line_feeds(text).len() == 0 <==> text.len() == 0,
{
    reveal_with_fuel(with_line_feeds, 2);
}

/// What the renderer keeps from frame to frame.
///
/// `P` is a primitive to draw, `D` a change of a texture and `F` a texture that is no longer used.
#[derive(Debug)]
pub struct EguiRenderer<P, D, F> {
    /// What the last frame draws.
    pub clipped_primitives: Vec<P>,
    /// The changes of textures to be uploaded before drawing, oldest first.
    pub textures_set: Vec<D>,
    /// The textures that are no longer used, oldest first.
    pub textures_free: Vec<F>,
}

/// What one frame of the user interface puts out.
#[derive(Debug)]
pub struct UiOutput<P, D, F> {
    pub clipped_primitives: Vec<P>,
    pub textures_set: Vec<D>,
    pub textures_free: Vec<F>,
}

impl<P, D, F> EguiRenderer<P, D, F> {
    /// A renderer with nothing to draw.
    pub fn new() -> (renderer: Self)
        ensures
            renderer.clipped_primitives@ == Seq::<P>::empty(),
            renderer.textures_set@ == Seq::<D>::empty(),
            renderer.textures_free@ == Seq::<F>::empty(),
    {
        EguiRenderer {
            clipped_primitives: Vec::new(),
            textures_set: Vec::new(),
            textures_free: Vec::new(),
        }
    }

    /// Takes over what a frame puts out. Its primitives replace those of the frame before. Its
    /// changes of textures come after all that came before.
    pub fn ui(&mut self, output: UiOutput<P, D, F>)
        ensures
            final(self).clipped_primitives@ == output.clipped_primitives@,
            final(self).textures_set@ == old(self).textures_set@ + output.textures_set@,
            final(self).textures_free@ == old(self).textures_free@ + output.textures_free@,
    {
        let UiOutput { clipped_primitives, mut textures_set, mut textures_free } = output;
        self.clipped_primitives = clipped_primitives;
        self.textures_set.append(&mut textures_set);
        self.textures_free.append(&mut textures_free);
    }
}

/// The command buffers of a frame in the order in which they are submitted: those that the user
/// interface asked for, then the one that draws it.
pub fn submission<B>(user_cmd_bufs: Vec<B>, encoded: B) -> (submitted: Vec<B>)
    ensures
        submitted@ == user_cmd_bufs@.push(encoded),
{
    let mut submitted: Vec<B> = user_cmd_bufs;
    submitted.push(encoded);
    submitted
}

/// A carriage return that is held back, if there is one.
spec fn held_return(held: bool) -> Seq<char> {
    if held {
        seq!['\r']
    } else {
        Seq::empty()
    }
}

/// What is known of the result once the next character is read.
spec fn resolved(held: bool, character: char) -> Seq<char> {
    (if held && character != '\n' {
        seq!['\r']
    } else {
        Seq::empty()
    }) + (if character == '\r' {
        Seq::empty()
    } else {
        seq![character]
    })
}

/// To read one more character takes over what is known of the result and leaves the rest as it is.
proof fn lemma_held_return_is_resolved(
    before: Seq<char>,
    held: bool,
    character: char,
    rest: Seq<char>,
)
    ensures
        before + with_line_feeds(held_return(held) + (seq![character] + rest)) == (before + resolved(
            held,
            character,
        )) + with_line_feeds(held_return(character == '\r') + rest),
{
    let text = held_return(held) + (seq![character] + rest);
    let tail = held_return(character == '\r') + rest;
    let whole = with_line_feeds(text);
    reveal_with_fuel(with_line_feeds, 3);
    if held {
        if character == '\n' {
            assert(text.skip(2) =~= rest);
            assert(tail =~= rest);
        } else {
            assert(text.skip(1) =~= seq![character] + rest);
            if character == '\r' {
                assert(tail =~= text.skip(1));
            } else {
                assert(text.skip(1).skip(1) =~= rest);
                assert(tail =~= rest);
            }
        }
    } else {
        assert(text =~= seq![character] + rest);
        if character == '\r' {
            assert(tail =~= text);
        } else {
            assert(text.skip(1) =~= rest);
            assert(tail =~= rest);
        }
    }
    assert(whole =~= resolved(held, character) + with_line_feeds(tail));
    assert(before + whole =~= (before + resolved(held, character)) + with_line_feeds(tail));
}

} // verus!
