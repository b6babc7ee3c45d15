//! The fields of one message.

use crate::encoding::{decimal_digits, Monospace, Priority, Sound, HTML};
use crate::multipart::{text_part, PartView};
use vstd::prelude::*;

verus! {

/// The fields of one message. The first three are required by the API; an
/// optional field that is `None` is left out of the form.
#[derive(Debug)]
pub struct Request {
    /// The application's API token.
    pub token: String,
    /// The key of the user or group that receives the message.
    pub user: String,
    /// The message body.
    pub message: String,
    /// The name of the device to send to.
    pub device: Option<String>,
    /// The message's title.
    pub title: Option<String>,
    /// Whether the body is rendered as HTML.
    pub html: Option<HTML>,
    /// Whether the body is rendered in a monospace font.
    pub monospace: Option<Monospace>,
    /// The Unix time shown with the message.
    pub timestamp: Option<u64>,
    /// The priority of the message.
    pub priority: Option<Priority>,
    /// A URL shown with the message.
    pub url: Option<String>,
    /// The title of that URL.
    pub url_title: Option<String>,
    /// The sound played for the message.
    pub sound: Option<Sound>,
}

impl Default for Request {
    /// A request whose required fields are empty and whose optional fields
    /// are not set.
    fn default() -> (request: Self)
        ensures
            request.token@ == Seq::<char>::empty(),
            request.user@ == Seq::<char>::empty(),
            request.message@ == Seq::<char>::empty(),
            request.is_bare(),
    {
        Request {
            token: String::new(),
            user: String::new(),
            message: String::new(),
            device: None,
            title: None,
            html: None,
            monospace: None,
            timestamp: None,
            priority: None,
            url: None,
            url_title: None,
            sound: None,
        }
    }
}

/// The characters of an optional text.
pub open spec fn text(value: Option<String>) -> Option<Seq<char>> {
    match value {
        Some(s) => Some(s@),
        None => None,
    }
}

/// The part, if any, that a field contributes to the form: one text part
/// under the field's name where the field has a value, none where it has
/// not.
pub open spec fn field(name: Seq<char>, value: Option<Seq<char>>) -> Seq<(Seq<char>, PartView)> {
    match value {
        Some(v) => seq![(name, text_part(v))],
        None => Seq::empty(),
    }
}

/// The parts of a form that stand under `name`, in the order of the form.
pub open spec fn parts_named(parts: Seq<(Seq<char>, PartView)>, name: Seq<char>) -> Seq<PartView>
    decreases parts.len(),
{
    if parts.len() == 0 {
        Seq::empty()
    } else if parts.last().0 == name {
        parts_named(parts.drop_last(), name).push(parts.last().1)
    } else {
        parts_named(parts.drop_last(), name)
    }
}

/// The parts that stand for a field's value: one text part where the field
/// has a value, none where it has not.
pub open spec fn text_parts(value: Option<Seq<char>>) -> Seq<PartView> {
    match value {
        Some(v) => seq![text_part(v)],
        None => Seq::empty(),
    }
}

/// The parts under a name in two forms joined are those in the first,
/// followed by those in the second.
pub proof fn lemma_parts_named_add(
    first: Seq<(Seq<char>, PartView)>,
    second: Seq<(Seq<char>, PartView)>,
    name: Seq<char>,
)
    ensures
        parts_named(first + second, name) == parts_named(first, name) + parts_named(second, name),
    decreases second.len(),
{
    if second.len() == 0 {
        assert(first + second =~= first);
        assert(parts_named(first, name) + parts_named(second, name) =~= parts_named(first, name));
    } else {
        assert((first + second).drop_last() =~= first + second.drop_last());
        assert((first + second).last() == second.last());
        lemma_parts_named_add(first, second.drop_last(), name);
        if second.last().0 == name {
            assert(parts_named(first + second, name) =~= parts_named(first, name) + parts_named(
                second,
                name,
            ));
        }
    }
}

/// A field stands under its own name only.
pub proof fn lemma_parts_named_field(field_name: Seq<char>, value: Option<Seq<char>>, name: Seq<char>)
    ensures
        parts_named(field(field_name, value), name) == if field_name == name {
            text_parts(value)
        } else {
            Seq::empty()
        },
{
    let parts = field(field_name, value);
    if parts.len() > 0 {
        assert(parts.drop_last() =~= Seq::empty());
        assert(parts_named(parts.drop_last(), name) =~= Seq::empty());
        assert(parts_named(parts, name) =~= if field_name == name {
            text_parts(value)
        } else {
            Seq::empty()
        });
    }
}

/// Whether two of the given names are never the same.
pub open spec fn pairwise_distinct(names: Seq<Seq<char>>) -> bool {
    forall|i: int, j: int| 0 <= i < j < names.len() ==> names[i] != names[j]
}

/// The names under which the parts of a form stand, in the order of the
/// form: those of the twelve fields, and that of the file part.
pub open spec fn part_names() -> Seq<Seq<char>> {
    seq![
        "token"@,
        "user"@,
        "message"@,
        "device"@,
        "title"@,
        "html"@,
        "monospace"@,
        "timestamp"@,
        "priority"@,
        "url"@,
        "url_title"@,
        "sound"@,
        "attachment"@,
    ]
}

/// The thirteen names differ from one another.
pub proof fn lemma_field_names_differ()
    ensures
        pairwise_distinct(part_names()),
{
    reveal_strlit("token");
    reveal_strlit("user");
    reveal_strlit("message");
    reveal_strlit("device");
    reveal_strlit("title");
    reveal_strlit("html");
    reveal_strlit("monospace");
    reveal_strlit("timestamp");
    reveal_strlit("priority");
    reveal_strlit("url");
    reveal_strlit("url_title");
    reveal_strlit("sound");
    reveal_strlit("attachment");
    let names = part_names();
    assert(names[0].len() == 5 && names[0][1] == 'o');
    assert(names[1].len() == 4);
    assert(names[2].len() == 7);
    assert(names[3].len() == 6);
    assert(names[4].len() == 5 && names[4][1] == 'i');
    assert(names[5].len() == 4 && names[5][0] == 'h');
    assert(names[6].len() == 9 && names[6][0] == 'm');
    assert(names[7].len() == 9 && names[7][0] == 't');
    assert(names[8].len() == 8);
    assert(names[9].len() == 3);
    assert(names[10].len() == 9 && names[10][0] == 'u');
    assert(names[11].len() == 5 && names[11][1] == 'o' && names[11][0] == 's');
    assert(names[12].len() == 10);
    assert(names[0][0] == 't');
    assert(names[1][0] == 'u');
}

impl Request {
    /// The text that the `html` field is sent as, if it is set.
    pub open spec fn html_text(self) -> Option<Seq<char>> {
        match self.html {
            Some(v) => Some(v.wire()),
            None => None,
        }
    }

    /// The text that the `monospace` field is sent as, if it is set.
    pub open spec fn monospace_text(self) -> Option<Seq<char>> {
        match self.monospace {
            Some(v) => Some(v.wire()),
            None => None,
        }
    }

    /// The text that the `timestamp` field is sent as, if it is set.
    pub open spec fn timestamp_text(self) -> Option<Seq<char>> {
        match self.timestamp {
            Some(v) => Some(decimal_digits(v as nat)),
            None => None,
        }
    }

    /// The text that the `priority` field is sent as, if it is set.
    pub open spec fn priority_text(self) -> Option<Seq<char>> {
        match self.priority {
            Some(v) => Some(v.wire()),
            None => None,
        }
    }

    /// The text that the `sound` field is sent as, if it is set.
    pub open spec fn sound_text(self) -> Option<Seq<char>> {
        match self.sound {
            Some(v) => Some(v.wire()),
            None => None,
        }
    }

    /// The text parts of the form, in the order in which they are sent.
    pub open spec fn parts(self) -> Seq<(Seq<char>, PartView)> {
        field("token"@, Some(self.token@)) + field("user"@, Some(self.user@)) + field(
            "message"@,
            Some(self.message@),
        ) + field("device"@, text(self.device)) + field("title"@, text(self.title)) + field(
            "html"@,
            self.html_text(),
        ) + field("monospace"@, self.monospace_text()) + field("timestamp"@, self.timestamp_text())
            + field("priority"@, self.priority_text()) + field("url"@, text(self.url)) + field(
            "url_title"@,
            text(self.url_title),
        ) + field("sound"@, self.sound_text())
    }

    /// Whether no optional field is set.
    pub open spec fn is_bare(self) -> bool {
        &&& self.device is None
        &&& self.title is None
        &&& self.html is None
        &&& self.monospace is None
        &&& self.timestamp is None
        &&& self.priority is None
        &&& self.url is None
        &&& self.url_title is None
        &&& self.sound is None
    }

    /// The text that the field called `name` is sent as: `None` where the
    /// field is not set, and for a name that is not the name of a field.
    pub open spec fn value_of(self, name: Seq<char>) -> Option<Seq<char>> {
        if name == "token"@ {
            Some(self.token@)
        } else if name == "user"@ {
            Some(self.user@)
        } else if name == "message"@ {
            Some(self.message@)
        } else if name == "device"@ {
            text(self.device)
        } else if name == "title"@ {
            text(self.title)
        } else if name == "html"@ {
            self.html_text()
        } else if name == "monospace"@ {
            self.monospace_text()
        } else if name == "timestamp"@ {
            self.timestamp_text()
        } else if name == "priority"@ {
            self.priority_text()
        } else if name == "url"@ {
            text(self.url)
        } else if name == "url_title"@ {
            text(self.url_title)
        } else if name == "sound"@ {
            self.sound_text()
        } else {
            None
        }
    }

    /// A request without optional fields is sent as exactly three text
    /// parts: `token`, `user` and `message`, in this order.
    pub proof fn lemma_bare_parts(self)
        requires
            self.is_bare(),
        ensures
            self.parts() == seq![
                ("token"@, text_part(self.token@)),
                ("user"@, text_part(self.user@)),
                ("message"@, text_part(self.message@)),
            ],
    {
        assert(self.parts() =~= seq![
            ("token"@, text_part(self.token@)),
            ("user"@, text_part(self.user@)),
            ("message"@, text_part(self.message@)),
        ]);
    }

    /// Under the name of a field that has a value the form holds exactly
    /// one part, the text part of the encoded value; under the name of a
    /// field that is not set, and under any other name, it holds none.
    pub proof fn lemma_parts_named(self, name: Seq<char>)
        ensures
            parts_named(self.parts(), name) == text_parts(self.value_of(name)),
    {
        lemma_field_names_differ();
        let f0 = field("token"@, Some(self.token@));
        let f1 = field("user"@, Some(self.user@));
        let f2 = field("message"@, Some(self.message@));
        let f3 = field("device"@, text(self.device));
        let f4 = field("title"@, text(self.title));
        let f5 = field("html"@, self.html_text());
        let f6 = field("monospace"@, self.monospace_text());
        let f7 = field("timestamp"@, self.timestamp_text());
        let f8 = field("priority"@, self.priority_text());
        let f9 = field("url"@, text(self.url));
        let f10 = field("url_title"@, text(self.url_title));
        let f11 = field("sound"@, self.sound_text());
        lemma_parts_named_field("token"@, Some(self.token@), name);
        lemma_parts_named_field("user"@, Some(self.user@), name);
        lemma_parts_named_field("message"@, Some(self.message@), name);
        lemma_parts_named_field("device"@, text(self.device), name);
        lemma_parts_named_field("title"@, text(self.title), name);
        lemma_parts_named_field("html"@, self.html_text(), name);
        lemma_parts_named_field("monospace"@, self.monospace_text(), name);
        lemma_parts_named_field("timestamp"@, self.timestamp_text(), name);
        lemma_parts_named_field("priority"@, self.priority_text(), name);
        lemma_parts_named_field("url"@, text(self.url), name);
        lemma_parts_named_field("url_title"@, text(self.url_title), name);
        lemma_parts_named_field("sound"@, self.sound_text(), name);
        let s1 = f0 + f1;
        let s2 = s1 + f2;
        let s3 = s2 + f3;
        let s4 = s3 + f4;
        let s5 = s4 + f5;
        let s6 = s5 + f6;
        let s7 = s6 + f7;
        let s8 = s7 + f8;
        let s9 = s8 + f9;
        let s10 = s9 + f10;
        let s11 = s10 + f11;
        lemma_parts_named_add(f0, f1, name);
        lemma_parts_named_add(s1, f2, name);
        lemma_parts_named_add(s2, f3, name);
        lemma_parts_named_add(s3, f4, name);
        lemma_parts_named_add(s4, f5, name);
        lemma_parts_named_add(s5, f6, name);
        lemma_parts_named_add(s6, f7, name);
        lemma_parts_named_add(s7, f8, name);
        lemma_parts_named_add(s8, f9, name);
        lemma_parts_named_add(s9, f10, name);
        lemma_parts_named_add(s10, f11, name);
        assert(self.parts() == s11);
        assert(parts_named(s11, name) =~= text_parts(self.value_of(name)));
    }

    /// A request with the required fields as given and no optional field.
    pub fn new(token: &str, user: &str, message: &str) -> (request: Self)
        ensures
            request.token@ == token@,
            request.user@ == user@,
            request.message@ == message@,
            request.is_bare(),
    {
        Request {
            token: token.to_owned(),
            user: user.to_owned(),
            message: message.to_owned(),
            device: None,
            title: None,
            html: None,
            monospace: None,
            timestamp: None,
            priority: None,
            url: None,
            url_title: None,
            sound: None,
        }
    }
}

} // verus!
