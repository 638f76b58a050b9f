//! Why a publish stops, and the message that says so.

use crate::text::{append_quoted, decimal, decimal_text, quoted};
use vstd::prelude::*;
use vstd::string::StringExecFns;

verus! {

/// A field of the descriptor that validation can find missing.
#[derive(Debug, Clone, Copy, PartialEq, Eq, Structural)]
pub enum Field {
    AccountId,
    Name,
    KvNamespaceBinding,
    KvNamespaceId,
    ZoneId,
    Route,
}

impl Field {
    /// The field's name as the descriptor file writes it.
    pub open spec fn text(self) -> Seq<char> {
        match self {
            Field::AccountId => "account_id"@,
            Field::Name => "name"@,
            Field::KvNamespaceBinding => "kv-namespace binding"@,
            Field::KvNamespaceId => "kv-namespace id"@,
            Field::ZoneId => "zone_id"@,
            Field::Route => "route"@,
        }
    }

    /// The field's name as the descriptor file writes it.
    pub fn name(self) -> (name: &'static str)
        ensures
            name@ == self.text(),
    {
        match self {
            Field::AccountId => "account_id",
            Field::Name => "name",
            Field::KvNamespaceBinding => "kv-namespace binding",
            Field::KvNamespaceId => "kv-namespace id",
            Field::ZoneId => "zone_id",
            Field::Route => "route",
        }
    }
}

/// The exposure that the descriptor asks for.
#[derive(Debug, Clone, Copy, PartialEq, Eq, Structural)]
pub enum Destination {
    Route,
    Subdomain,
}

impl Destination {
    /// The destination as a message names it.
    pub open spec fn text(self) -> Seq<char> {
        match self {
            Destination::Route => "a route"@,
            Destination::Subdomain => "your subdomain"@,
        }
    }

    /// The destination as a message names it.
    pub fn phrase(self) -> (phrase: &'static str)
        ensures
            phrase@ == self.text(),
    {
        match self {
            Destination::Route => "a route",
            Destination::Subdomain => "your subdomain",
        }
    }
}

/// Why a publish stopped.
#[derive(Debug, Clone, PartialEq, Eq)]
pub enum PublishError {
    /// The descriptor lacks fields that the destination needs: every one of them,
    /// in the order in which validation looks at them.
    MissingFields { fields: Vec<Field>, destination: Destination },
    /// A binding declares a bucket with an empty path.
    BucketPathEmpty,
    /// Nothing exists at a bucket's path.
    BucketMissing { path: String },
    /// A bucket's path leads to something that is no directory.
    BucketNotDirectory { path: String },
    /// The platform answered a call with a status outside 200 to 299.
    Remote { status: u16, body: String },
    /// Exposure on a subdomain was asked for and the account has registered none.
    SubdomainUnregistered,
    /// A collaborator failed; its own words are passed on unchanged.
    Collaborator { message: String },
    /// The event handed in does not answer the action that was pending.
    OutOfSequence,
}

/// The mathematical content of a [`PublishError`].
pub enum PublishErrorView {
    MissingFields { fields: Seq<Field>, destination: Destination },
    BucketPathEmpty,
    BucketMissing { path: Seq<char> },
    BucketNotDirectory { path: Seq<char> },
    Remote { status: u16, body: Seq<char> },
    SubdomainUnregistered,
    Collaborator { message: Seq<char> },
    OutOfSequence,
}

impl View for PublishError {
    type V = PublishErrorView;

    open spec fn view(&self) -> PublishErrorView {
        match self {
            PublishError::MissingFields { fields, destination } => PublishErrorView::MissingFields {
                fields: fields@,
                destination: *destination,
            },
            PublishError::BucketPathEmpty => PublishErrorView::BucketPathEmpty,
            PublishError::BucketMissing { path } => PublishErrorView::BucketMissing { path: path@ },
            PublishError::BucketNotDirectory { path } => PublishErrorView::BucketNotDirectory {
                path: path@,
            },
            PublishError::Remote { status, body } => PublishErrorView::Remote {
                status: *status,
                body: body@,
            },
            PublishError::SubdomainUnregistered => PublishErrorView::SubdomainUnregistered,
            PublishError::Collaborator { message } => PublishErrorView::Collaborator {
                message: message@,
            },
            PublishError::OutOfSequence => PublishErrorView::OutOfSequence,
        }
    }
}

/// The quoted names of the fields, separated by a comma and a space.
pub open spec fn field_names(fields: Seq<Field>) -> Seq<char>
    decreases fields.len(),
{
    if fields.len() == 0 {
        Seq::empty()
    } else if fields.len() == 1 {
        quoted(fields[0].text())
    } else {
        field_names(fields.drop_last()) + ", "@ + quoted(fields.last().text())
    }
}

/// The fields as a list in square brackets.
pub open spec fn field_list(fields: Seq<Field>) -> Seq<char> {
    "["@ + field_names(fields) + "]"@
}

/// "field" for one, "fields" for several, nothing for none.
pub open spec fn field_noun(count: nat) -> Seq<char> {
    if count >= 2 {
        "fields"@
    } else if count == 1 {
        "field"@
    } else {
        Seq::empty()
    }
}

/// "is" for one, "are" for several, nothing for none.
pub open spec fn field_verb(count: nat) -> Seq<char> {
    if count >= 2 {
        "are"@
    } else if count == 1 {
        "is"@
    } else {
        Seq::empty()
    }
}

/// The sentence that reports missing fields.
pub open spec fn missing_fields_message(fields: Seq<Field>, destination: Destination) -> Seq<char> {
    "Your wrangler.toml is missing the "@ + field_noun(fields.len()) + " "@ + field_list(fields)
        + " which "@ + field_verb(fields.len()) + " required to publish to "@ + destination.text()
        + "!"@
}

/// The sentence that reports a status outside 200 to 299.
pub open spec fn remote_message(status: u16, body: Seq<char>) -> Seq<char> {
    "Something went wrong! Status: "@ + decimal(status as nat) + ", Details "@ + body
}

/// The message of each error.
pub open spec fn message_text(error: PublishErrorView) -> Seq<char> {
    match error {
        PublishErrorView::MissingFields { fields, destination } => missing_fields_message(
            fields,
            destination,
        ),
        PublishErrorView::BucketPathEmpty => "You need to specify a bucket directory in your wrangler.toml"@,
        PublishErrorView::BucketMissing { path } => "bucket directory "@ + quoted(path)
            + " does not exist"@,
        PublishErrorView::BucketNotDirectory { path } => "bucket "@ + quoted(path)
            + " is not a directory"@,
        PublishErrorView::Remote { status, body } => remote_message(status, body),
        PublishErrorView::SubdomainUnregistered => "No subdomain is registered for this account; register one before publishing to your subdomain"@,
        PublishErrorView::Collaborator { message } => message,
        PublishErrorView::OutOfSequence => "The event does not answer the pending action"@,
    }
}

/// One missing field is reported in the singular.
pub proof fn lemma_one_missing_field_is_singular(fields: Seq<Field>, destination: Destination)
    requires
        fields.len() == 1,
    ensures
        missing_fields_message(fields, destination) == "Your wrangler.toml is missing the field "@
            + field_list(fields) + " which is required to publish to "@ + destination.text()
            + "!"@,
{
    reveal_strlit("Your wrangler.toml is missing the field ");
    reveal_strlit("Your wrangler.toml is missing the ");
    reveal_strlit("field");
    reveal_strlit(" ");
    reveal_strlit(" which is required to publish to ");
    reveal_strlit(" which ");
    reveal_strlit("is");
    reveal_strlit(" required to publish to ");
    assert("Your wrangler.toml is missing the "@ + "field"@ + " "@
        =~= "Your wrangler.toml is missing the field "@);
    assert(" which "@ + "is"@ + " required to publish to "@
        =~= " which is required to publish to "@);
    assert(missing_fields_message(fields, destination)
        =~= "Your wrangler.toml is missing the field "@ + field_list(fields)
        + " which is required to publish to "@ + destination.text() + "!"@);
}

/// Two or more missing fields are reported in the plural.
pub proof fn lemma_several_missing_fields_are_plural(fields: Seq<Field>, destination: Destination)
    requires
        fields.len() >= 2,
    ensures
        missing_fields_message(fields, destination) == "Your wrangler.toml is missing the fields "@
            + field_list(fields) + " which are required to publish to "@ + destination.text()
            + "!"@,
{
    reveal_strlit("Your wrangler.toml is missing the fields ");
    reveal_strlit("Your wrangler.toml is missing the ");
    reveal_strlit("fields");
    reveal_strlit(" ");
    reveal_strlit(" which are required to publish to ");
    reveal_strlit(" which ");
    reveal_strlit("are");
    reveal_strlit(" required to publish to ");
    assert("Your wrangler.toml is missing the "@ + "fields"@ + " "@
        =~= "Your wrangler.toml is missing the fields "@);
    assert(" which "@ + "are"@ + " required to publish to "@
        =~= " which are required to publish to "@);
    assert(missing_fields_message(fields, destination)
        =~= "Your wrangler.toml is missing the fields "@ + field_list(fields)
        + " which are required to publish to "@ + destination.text() + "!"@);
}

/// Writes the fields as a list in square brackets.
pub fn field_list_text(fields: &Vec<Field>) -> (text: String)
    ensures
        text@ == field_list(fields@),
{
    let mut text = String::from_str("[");
    let mut i: usize = 0;
    while i < fields.len()
        invariant
            i <= fields.len(),
            text@ == "["@ + field_names(fields@.take(i as int)),
        decreases fields.len() - i,
    {
        let ghost before = text@;
        if i > 0 {
            text.append(", ");
        }
        append_quoted(&mut text, fields[i].name());
        proof {
            let next = fields@.take(i + 1);
            assert(next.drop_last() =~= fields@.take(i as int));
            assert(next.last() == fields@[i as int]);
            assert(text@ =~= "["@ + field_names(next));
        }
        i += 1;
    }
    assert(fields@.take(i as int) =~= fields@);
    text.append("]");
    text
}

impl PublishError {
    /// The message of this error, for a person to read.
    pub fn message(&self) -> (message: String)
        ensures
            message@ == message_text(self@),
    {
        match self {
            PublishError::MissingFields { fields, destination } => {
                let (noun, verb) = if fields.len() >= 2 {
                    ("fields", "are")
                } else if fields.len() == 1 {
                    ("field", "is")
                } else {
                    ("", "")
                };
                proof {
                    reveal_strlit("");
                    assert(""@ =~= Seq::<char>::empty());
                }
                let mut message = String::from_str("Your wrangler.toml is missing the ");
                message.append(noun);
                message.append(" ");
                let list = field_list_text(fields);
                message.append(list.as_str());
                message.append(" which ");
                message.append(verb);
                message.append(" required to publish to ");
                message.append(destination.phrase());
                message.append("!");
                message
            },
            PublishError::BucketPathEmpty => String::from_str(
                "You need to specify a bucket directory in your wrangler.toml",
            ),
            PublishError::BucketMissing { path } => {
                let mut message = String::from_str("bucket directory ");
                append_quoted(&mut message, path.as_str());
                message.append(" does not exist");
                message
            },
            PublishError::BucketNotDirectory { path } => {
                let mut message = String::from_str("bucket ");
                append_quoted(&mut message, path.as_str());
                message.append(" is not a directory");
                message
            },
            PublishError::Remote { status, body } => {
                let mut message = String::from_str("Something went wrong! Status: ");
                let code = decimal_text(*status);
                message.append(code.as_str());
                message.append(", Details ");
                message.append(body.as_str());
                message
            },
            PublishError::SubdomainUnregistered => String::from_str(
                "No subdomain is registered for this account; register one before publishing to your subdomain",
            ),
            PublishError::Collaborator { message } => message.clone(),
            PublishError::OutOfSequence => String::from_str(
                "The event does not answer the pending action",
            ),
        }
    }
}

} // verus!
