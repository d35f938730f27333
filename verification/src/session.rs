//! A labelling session: the pictures that are still to be labelled, and what is
//! to be done when the picture at hand is finished.
//!
//! Pictures are labelled in one of two ways. By hand, a picture is finished as a
//! whole. By yes and no, the detections of a model are shown one by one, each as
//! a part of the picture, and the picture is finished when the last detection was
//! answered.

use crate::text::{chars_of, decimal_string, decimal_text};
use vstd::prelude::*;

verus! {

/// What the owner of a session has to do, in the order given.
#[derive(Debug, PartialEq)]
pub enum SessionAction {
    /// Store the part of the picture that shows the detection at hand, under the
    /// name given.
    SaveSubImage(String),
    /// Store the labels drawn on the picture named.
    SaveLabels(String),
    /// Forget the detections of the picture that was finished.
    ForgetDetections,
    /// The last picture was finished: the session is over.
    EndSession,
}

/// An action with its names as plain text.
pub enum SessionActionView {
    SaveSubImage(Seq<char>),
    SaveLabels(Seq<char>),
    ForgetDetections,
    EndSession,
}

impl View for SessionAction {
    type V = SessionActionView;

    open spec fn view(&self) -> SessionActionView {
        match self {
            SessionAction::SaveSubImage(name) => SessionActionView::SaveSubImage(name@),
            SessionAction::SaveLabels(name) => SessionActionView::SaveLabels(name@),
            SessionAction::ForgetDetections => SessionActionView::ForgetDetections,
            SessionAction::EndSession => SessionActionView::EndSession,
        }
    }
}

/// A text without its slashes.
pub open spec fn without_slashes(s: Seq<char>) -> Seq<char>
    decreases s.len(),
{
    if s.len() == 0 {
        Seq::empty()
    } else if s.last() == '/' {
        without_slashes(s.drop_last())
    } else {
        without_slashes(s.drop_last()).push(s.last())
    }
}

/// The name under which the part of a picture that shows its detection number
/// `idx` is stored.
pub open spec fn sub_image_name(idx: nat, picture: Seq<char>) -> Seq<char> {
    "JaNeinImgs/Nr"@ + decimal_text(idx) + without_slashes(picture)
}

/// A session as plain values.
pub struct SessionView {
    /// The pictures still to be labelled; the last one is the one at hand.
    pub queue: Seq<Seq<char>>,
    /// The number of the detection at hand, when labelling by yes and no.
    pub idx: nat,
}

impl SessionView {
    /// What is to be stored when the picture at hand is finished: nothing where it
    /// is skipped or where there is no picture; by hand, the labels of the
    /// picture; by yes and no, the part that shows the detection at hand, and the
    /// labels of that part.
    pub open spec fn saves(self, skip: bool, janein: bool) -> Seq<SessionActionView> {
        if skip || self.queue.len() == 0 {
            Seq::empty()
        } else if !janein {
            seq![SessionActionView::SaveLabels(self.queue.last())]
        } else {
            seq![
                SessionActionView::SaveSubImage(sub_image_name(self.idx, self.queue.last())),
                SessionActionView::SaveLabels(sub_image_name(self.idx, self.queue.last())),
            ]
        }
    }

    /// Whether the picture at hand is done with: by hand always, by yes and no
    /// once the last of its `buildings` detections was answered.
    pub open spec fn picture_done(self, janein: bool, buildings: nat) -> bool {
        !janein || self.idx + 1 >= buildings
    }

    /// The session after the picture at hand was finished: a picture that is done
    /// with leaves the queue and the count of detections starts anew; else the
    /// next detection is at hand.
    pub open spec fn advance(self, janein: bool, buildings: nat) -> SessionView {
        if self.picture_done(janein, buildings) {
            SessionView {
                queue: if self.queue.len() > 0 {
                    self.queue.drop_last()
                } else {
                    self.queue
                },
                idx: if janein {
                    0
                } else {
                    self.idx
                },
            }
        } else {
            SessionView { idx: self.idx + 1, ..self }
        }
    }

    /// The session after `reset_labeling`: advanced, and with the count of
    /// detections at nought where no picture is left.
    pub open spec fn reset(self, janein: bool, buildings: nat) -> SessionView {
        let next = self.advance(janein, buildings);
        if next.queue.len() == 0 {
            SessionView { idx: 0, ..next }
        } else {
            next
        }
    }

    /// What `reset_labeling` asks its caller to do: to store what is to be stored;
    /// to forget the detections where labelling by yes and no is done with a
    /// picture; and to end the session where no picture is left.
    pub open spec fn actions(self, skip: bool, janein: bool, buildings: nat) -> Seq<SessionActionView> {
        self.saves(skip, janein) + (if janein && self.picture_done(janein, buildings) {
            seq![SessionActionView::ForgetDetections]
        } else {
            Seq::empty()
        }) + (if self.advance(janein, buildings).queue.len() == 0 {
            seq![SessionActionView::EndSession]
        } else {
            Seq::empty()
        })
    }
}

/// The pictures of a labelling session and the count of detections answered.
pub struct LabelSession {
    pub labeling_que: Vec<String>,
    pub ja_nein_idx: usize,
}

impl View for LabelSession {
    type V = SessionView;

    open spec fn view(&self) -> SessionView {
        SessionView { queue: self.labeling_que@.map_values(|s: String| s@), idx: self.ja_nein_idx as nat }
    }
}

/// Copies a text without its slashes.
pub fn remove_slashes(s: &str) -> (cleaned: String)
    ensures
        cleaned@ == without_slashes(s@),
{
    let chars = chars_of(s);
    let mut cleaned = String::new();
    let mut start: usize = 0;
    let mut i: usize = 0;
    assert(s@.take(0) =~= Seq::<char>::empty());
    assert(s@.subrange(0, 0) =~= Seq::<char>::empty());
    while i < chars.len()
        invariant
            chars@ == s@,
            0 <= start <= i <= chars.len(),
            cleaned@ + s@.subrange(start as int, i as int) == without_slashes(s@.take(i as int)),
            forall|j: int| start <= j < i ==> s@[j] != '/',
        decreases chars.len() - i,
    {
        proof {
            assert(s@.take(i + 1).drop_last() =~= s@.take(i as int));
            assert(s@.take(i + 1).last() == s@[i as int]);
        }
        if chars[i] == '/' {
            let piece = s.substring_char(start, i);
            cleaned = cleaned.concat(piece);
            start = i + 1;
            assert(s@.subrange(start as int, start as int) =~= Seq::<char>::empty());
            assert(cleaned@ + Seq::<char>::empty() =~= cleaned@);
        } else {
            assert(s@.subrange(start as int, i + 1) =~= s@.subrange(start as int, i as int).push(s@[i as int]));
            assert(cleaned@ + s@.subrange(start as int, i as int).push(s@[i as int]) =~= (cleaned@ + s@.subrange(
                start as int,
                i as int,
            )).push(s@[i as int]));
        }
        i = i + 1;
    }
    assert(s@.take(chars.len() as int) =~= s@);
    cleaned.concat(s.substring_char(start, i))
}

impl LabelSession {
    /// A session without pictures.
    pub fn new() -> (session: LabelSession)
        ensures
            session@.queue.len() == 0,
            session@.idx == 0,
    {
        LabelSession { labeling_que: Vec::new(), ja_nein_idx: 0 }
    }

    /// Whether pictures are left to be labelled.
    pub fn is_running(&self) -> (running: bool)
        ensures
            running == (self@.queue.len() > 0),
    {
        self.labeling_que.len() > 0
    }

    /// Begins a session with the pictures given; the last one is labelled first.
    pub fn start(&mut self, pictures: Vec<String>)
        ensures
            final(self)@.queue == pictures@.map_values(|s: String| s@),
            final(self)@.idx == old(self)@.idx,
    {
        self.labeling_que = pictures;
    }

    /// Ends the session: no picture is left and no detection counted.
    pub fn stop(&mut self)
        ensures
            final(self)@.queue.len() == 0,
            final(self)@.idx == 0,
    {
        self.labeling_que = Vec::new();
        self.ja_nein_idx = 0;
    }

    /// Finishes the picture at hand, or the detection at hand when labelling by
    /// yes and no (`janein`) a picture with `buildings` detections. Unless the
    /// picture is skipped, what was labelled is to be stored. The actions say what
    /// the caller has to do, in their order.
    pub fn reset_labeling(&mut self, skip: bool, janein: bool, buildings: usize) -> (actions: Vec<SessionAction>)
        ensures
            final(self)@ == old(self)@.reset(janein, buildings as nat),
            actions@.map_values(|a: SessionAction| a@) == old(self)@.actions(skip, janein, buildings as nat),
    {
        let ghost before = self@;
        let mut actions: Vec<SessionAction> = Vec::new();
        assert(actions@.map_values(|a: SessionAction| a@) =~= Seq::<SessionActionView>::empty());
        let count: usize = self.labeling_que.len();
        if !skip && count > 0 {
            let picture = &self.labeling_que[count - 1];
            assert(picture@ == before.queue.last());
            if !janein {
                actions.push(SessionAction::SaveLabels(picture.clone()));
            } else {
                let number = decimal_string(self.ja_nein_idx as u128);
                let cleaned = remove_slashes(picture.as_str());
                let name = String::from_str("JaNeinImgs/Nr").concat(number.as_str()).concat(cleaned.as_str());
                actions.push(SessionAction::SaveSubImage(name.clone()));
                actions.push(SessionAction::SaveLabels(name));
            }
        }
        assert(actions@.map_values(|a: SessionAction| a@) =~= before.saves(skip, janein));
        let done: bool = !janein || self.ja_nein_idx == usize::MAX || self.ja_nein_idx + 1 >= buildings;
        if done {
            if count > 0 {
                self.labeling_que.pop();
                assert(self.labeling_que@.map_values(|s: String| s@) =~= before.queue.drop_last());
            }
            if janein {
                self.ja_nein_idx = 0;
                actions.push(SessionAction::ForgetDetections);
            }
        } else {
            self.ja_nein_idx = self.ja_nein_idx + 1;
        }
        assert(self@ == before.advance(janein, buildings as nat));
        if self.labeling_que.len() == 0 {
            self.ja_nein_idx = 0;
            actions.push(SessionAction::EndSession);
        }
        assert(actions@.map_values(|a: SessionAction| a@) =~= before.actions(skip, janein, buildings as nat));
        actions
    }
}

/// Whether a file with this ending is offered as a picture.
pub open spec fn picture_ending(ending: Seq<char>) -> bool {
    ending == "png"@ || ending == "jpg"@ || ending == "jpeg"@ || ending == "pdf"@ || ending == "gif"@ || ending
        == "webp"@
}

/// Whether a file with this ending is offered as a picture.
pub fn is_picture_ending(ending: &str) -> (offered: bool)
    ensures
        offered == picture_ending(ending@),
{
    let text = String::from_str(ending);
    text == String::from_str("png") || text == String::from_str("jpg") || text == String::from_str("jpeg") || text
        == String::from_str("pdf") || text == String::from_str("gif") || text == String::from_str("webp")
}

} // verus!
