//! The domain: kinds of activity, the activity entity, and the errors.

use vstd::prelude::*;
use crate::text::same_text;

verus! {

/// A kind of activity, written on the wire as one lowercase word.
#[derive(PartialEq, Eq, Structural, Debug, Clone, Copy)]
pub enum ActivityType {
    Education,
    Recreational,
    Social,
    Diy,
    Charity,
    Cooking,
    Relaxation,
    Music,
    Busywork,
}

impl ActivityType {
    /// The word that stands for this kind on the wire.
    pub open spec fn wire_name(self) -> Seq<char> {
        match self {
            ActivityType::Education => "education"@,
            ActivityType::Recreational => "recreational"@,
            ActivityType::Social => "social"@,
            ActivityType::Diy => "diy"@,
            ActivityType::Charity => "charity"@,
            ActivityType::Cooking => "cooking"@,
            ActivityType::Relaxation => "relaxation"@,
            ActivityType::Music => "music"@,
            ActivityType::Busywork => "busywork"@,
        }
    }

    /// The kind whose wire word is `s`, if any: the match is exact.
    pub open spec fn named(s: Seq<char>) -> Option<ActivityType> {
        if s == "education"@ {
            Some(ActivityType::Education)
        } else if s == "recreational"@ {
            Some(ActivityType::Recreational)
        } else if s == "social"@ {
            Some(ActivityType::Social)
        } else if s == "diy"@ {
            Some(ActivityType::Diy)
        } else if s == "charity"@ {
            Some(ActivityType::Charity)
        } else if s == "cooking"@ {
            Some(ActivityType::Cooking)
        } else if s == "relaxation"@ {
            Some(ActivityType::Relaxation)
        } else if s == "music"@ {
            Some(ActivityType::Music)
        } else if s == "busywork"@ {
            Some(ActivityType::Busywork)
        } else {
            None
        }
    }

    /// The wire word of this kind.
    pub fn as_wire(&self) -> (r: &'static str)
        ensures
            r@ == self.wire_name(),
    {
        match self {
            ActivityType::Education => "education",
            ActivityType::Recreational => "recreational",
            ActivityType::Social => "social",
            ActivityType::Diy => "diy",
            ActivityType::Charity => "charity",
            ActivityType::Cooking => "cooking",
            ActivityType::Relaxation => "relaxation",
            ActivityType::Music => "music",
            ActivityType::Busywork => "busywork",
        }
    }

    /// The kind whose wire word is `s`; `None` where `s` is none of the nine
    /// words (case matters).
    pub fn from_wire(s: &str) -> (r: Option<ActivityType>)
        ensures
            r == Self::named(s@),
            match r {
                Some(t) => s@ == t.wire_name(),
                None => forall|t: ActivityType| s@ != #[trigger] t.wire_name(),
            },
    {
        proof {
            lemma_wire_names_distinct();
        }
        if same_text(s, "education") {
            Some(ActivityType::Education)
        } else if same_text(s, "recreational") {
            Some(ActivityType::Recreational)
        } else if same_text(s, "social") {
            Some(ActivityType::Social)
        } else if same_text(s, "diy") {
            Some(ActivityType::Diy)
        } else if same_text(s, "charity") {
            Some(ActivityType::Charity)
        } else if same_text(s, "cooking") {
            Some(ActivityType::Cooking)
        } else if same_text(s, "relaxation") {
            Some(ActivityType::Relaxation)
        } else if same_text(s, "music") {
            Some(ActivityType::Music)
        } else if same_text(s, "busywork") {
            Some(ActivityType::Busywork)
        } else {
            None
        }
    }
}

/// Reading a kind's own wire word gives the kind back.
proof fn lemma_named_wire_name(t: ActivityType)
    ensures
        ActivityType::named(t.wire_name()) == Some(t),
{
    reveal_strlit("education");
    reveal_strlit("recreational");
    reveal_strlit("social");
    reveal_strlit("diy");
    reveal_strlit("charity");
    reveal_strlit("cooking");
    reveal_strlit("relaxation");
    reveal_strlit("music");
    reveal_strlit("busywork");
    assert("education"@.len() == 9);
    assert("recreational"@.len() == 12);
    assert("social"@.len() == 6);
    assert("diy"@.len() == 3);
    assert("charity"@.len() == 7);
    assert("cooking"@.len() == 7);
    assert("relaxation"@.len() == 10);
    assert("music"@.len() == 5);
    assert("busywork"@.len() == 8);
    assert("charity"@[1] != "cooking"@[1]);
    match t {
        ActivityType::Education => {},
        ActivityType::Recreational => {},
        ActivityType::Social => {},
        ActivityType::Diy => {},
        ActivityType::Charity => {},
        ActivityType::Cooking => {
            assert("cooking"@ != "charity"@);
        },
        ActivityType::Relaxation => {},
        ActivityType::Music => {},
        ActivityType::Busywork => {},
    }
}

/// The nine wire words are pairwise different.
pub proof fn lemma_wire_names_distinct()
    ensures
        forall|a: ActivityType, b: ActivityType| #[trigger]
            a.wire_name() == #[trigger] b.wire_name() ==> a == b,
{
    assert forall|a: ActivityType, b: ActivityType| #[trigger]
        a.wire_name() == #[trigger] b.wire_name() implies a == b by {
        lemma_named_wire_name(a);
        lemma_named_wire_name(b);
    }
}

/// Writing a kind as its wire word and reading the word back gives the
/// kind again; a word that is no kind's reads as nothing.
pub proof fn lemma_wire_round_trip(t: ActivityType, s: Seq<char>)
    ensures
        ActivityType::named(t.wire_name()) == Some(t),
        (forall|u: ActivityType| s != #[trigger] u.wire_name()) <==> ActivityType::named(s) is None,
{
    lemma_named_wire_name(t);
    if ActivityType::named(s) is None {
        assert forall|u: ActivityType| s != #[trigger] u.wire_name() by {
            lemma_named_wire_name(u);
        }
    } else {
        let u = ActivityType::named(s).unwrap();
        assert(s == u.wire_name());
    }
}

/// An activity as the service describes it.
#[derive(Debug)]
pub struct Activity {
    pub description: String,
    pub accessibility: serde_json::Number,
    pub activity_type: ActivityType,
    pub participants: u64,
    pub price: serde_json::Number,
    pub link: Option<url::Url>,
    pub key: u64,
}

/// An activity's fields as values.
pub struct ActivityView {
    pub description: Seq<char>,
    pub accessibility: serde_json::Number,
    pub activity_type: ActivityType,
    pub participants: u64,
    pub price: serde_json::Number,
    pub link: Option<url::Url>,
    pub key: u64,
}

impl View for Activity {
    type V = ActivityView;

    open spec fn view(&self) -> ActivityView {
        ActivityView {
            description: self.description@,
            accessibility: self.accessibility,
            activity_type: self.activity_type,
            participants: self.participants,
            price: self.price,
            link: self.link,
            key: self.key,
        }
    }
}

impl Activity {
    pub fn new(
        description: String,
        accessibility: serde_json::Number,
        activity_type: ActivityType,
        participants: u64,
        price: serde_json::Number,
        link: Option<url::Url>,
        key: u64,
    ) -> (r: Self)
        ensures
            r.description == description,
            r.accessibility == accessibility,
            r.activity_type == activity_type,
            r.participants == participants,
            r.price == price,
            r.link == link,
            r.key == key,
    {
        Activity { description, accessibility, activity_type, participants, price, link, key }
    }
}

/// Why a request for an activity gave none.
#[derive(Debug)]
pub enum Error {
    /// The transport failed, or the body was no JSON; the transport's own
    /// account of the failure.
    HttpError(String),
    /// The service answered with an error message.
    ApiError(String),
    /// The answer was JSON but not of the expected shape.
    BadResponse,
}

} // verus!
