use vstd::prelude::*;
use crate::sockets::{json_string, json_string_of};
use crate::text::{chars_of, decimal, push_decimal, same_chars};

verus! {

/// Why a request to the Mojang or Minecraft services failed.
#[derive(Clone, Copy, Debug, PartialEq, Eq, Structural)]
pub enum RequestError {
    /// "HTTP {status}"
    Http(u16),
    /// The reply's body did not have the expected JSON shape.
    Parse,
    /// "Incorrect email or password"
    IncorrectCredentials,
    /// "SQ answers required"
    SqAnswersRequired,
    /// "Incorrect security questions"
    IncorrectSecurityAnswers,
    /// "Name change not allowed within the cooldown period"
    NameChangeNotAllowed,
}

/// The identifier of a security question.
#[derive(Clone, Copy, Debug, PartialEq, Eq, Structural)]
pub struct QuestionID {
    pub id: u64,
}

/// One security question as the account service lists it.
#[derive(Clone, Copy, Debug, PartialEq, Eq, Structural)]
pub struct QuestionData {
    pub answer: QuestionID,
}

/// One answer to send back: the question's identifier and the answer.
pub struct SecurityAnswer {
    pub id: u64,
    pub answer: String,
}

/// When a name can be claimed, as the droptime service tells it.
pub enum DroptimeData {
    /// The name drops at this Unix time (seconds).
    Available(i64),
    /// The service's reason why it has no droptime.
    Unavailable(String),
}

/// How a skin is uploaded.
pub enum SkinUpload {
    /// A multipart form with the `variant` text and the file at `path`.
    File { variant: String, path: String },
    /// A JSON body with the skin's `url` and `variant`.
    Url { url: String, variant: String },
}

/// The bearer token out of the reply to the Mojang sign-in; `token` is the
/// `accessToken` field of the body, `None` when the body does not hold one.
pub fn bearer_token_outcome(status: u16, token: Option<String>) -> (r: Result<String, RequestError>)
    ensures
        status == 200 ==> match token {
            Some(t) => r == Ok::<String, RequestError>(t),
            None => r == Err::<String, RequestError>(RequestError::Parse),
        },
        status == 403 ==> r == Err::<String, RequestError>(RequestError::IncorrectCredentials),
        status != 200 && status != 403 ==> r == Err::<String, RequestError>(RequestError::Http(status)),
{
    if status == 200 {
        match token {
            Some(t) => Ok(t),
            None => Err(RequestError::Parse),
        }
    } else if status == 403 {
        Err(RequestError::IncorrectCredentials)
    } else {
        Err(RequestError::Http(status))
    }
}

/// The security questions out of their listing: `body` is the reply's body
/// and `questions` the three questions read from it (`None` when it does not
/// hold three). An empty list (`[]`) means that the account needs no answers.
pub fn questions_outcome(status: u16, body: &str, questions: Option<[QuestionData; 3]>) -> (r: Result<
    Option<[QuestionData; 3]>,
    RequestError,
>)
    ensures
        status != 200 ==> r == Err::<Option<[QuestionData; 3]>, RequestError>(RequestError::Http(status)),
        status == 200 && body@ == "[]"@ ==> r == Ok::<Option<[QuestionData; 3]>, RequestError>(None),
        status == 200 && body@ != "[]"@ ==> match questions {
            Some(q) => r == Ok::<Option<[QuestionData; 3]>, RequestError>(Some(q)),
            None => r == Err::<Option<[QuestionData; 3]>, RequestError>(RequestError::Parse),
        },
{
    if status != 200 {
        return Err(RequestError::Http(status));
    }
    if same_chars(&chars_of(body), &chars_of("[]")) {
        return Ok(None);
    }
    match questions {
        Some(q) => Ok(Some(q)),
        None => Err(RequestError::Parse),
    }
}

/// What to send after the questions were listed: nothing when there are
/// none, the answers paired with the questions in order when there are, and
/// `SqAnswersRequired` when the account has no answers configured.
pub fn security_answers(questions: Option<[QuestionData; 3]>, answers: &Option<[String; 3]>) -> (r:
    Result<Option<Vec<SecurityAnswer>>, RequestError>)
    ensures
        questions is None ==> r matches Ok(None),
        questions is Some && answers is None ==> r == Err::<Option<Vec<SecurityAnswer>>, RequestError>(
            RequestError::SqAnswersRequired,
        ),
        questions matches Some(q) ==> (answers matches Some(a) ==> (r matches Ok(Some(v)) && v@.len() == 3
            && forall|i: int| 0 <= i < 3 ==> (#[trigger] v@[i]).id == q[i].answer.id && v@[i].answer == a[i])),
{
    match questions {
        None => Ok(None),
        Some(q) => match answers {
            None => Err(RequestError::SqAnswersRequired),
            Some(a) => {
                let mut v: Vec<SecurityAnswer> = Vec::new();
                v.push(SecurityAnswer { id: q[0].answer.id, answer: a[0].clone() });
                v.push(SecurityAnswer { id: q[1].answer.id, answer: a[1].clone() });
                v.push(SecurityAnswer { id: q[2].answer.id, answer: a[2].clone() });
                Ok(Some(v))
            },
        },
    }
}

/// The outcome of sending the security answers.
pub fn answers_outcome(status: u16) -> (r: Result<(), RequestError>)
    ensures
        status == 204 ==> r is Ok,
        status == 403 ==> r == Err::<(), RequestError>(RequestError::IncorrectSecurityAnswers),
        status != 204 && status != 403 ==> r == Err::<(), RequestError>(RequestError::Http(status)),
{
    if status == 204 {
        Ok(())
    } else if status == 403 {
        Err(RequestError::IncorrectSecurityAnswers)
    } else {
        Err(RequestError::Http(status))
    }
}

/// The droptime of a name out of the droptime service's reply: `unix` is
/// the `unix` field of the body and `error` its `error` field, each `None`
/// where the body does not hold it.
pub fn droptime_outcome(status: u16, unix: Option<i64>, error: Option<String>) -> (r: Result<
    DroptimeData,
    RequestError,
>)
    ensures
        status == 200 ==> match unix {
            Some(t) => r matches Ok(DroptimeData::Available(u)) && u == t,
            None => r matches Err(RequestError::Parse),
        },
        status == 400 ==> match error {
            Some(e) => r matches Ok(DroptimeData::Unavailable(m)) && m == e,
            None => r matches Err(RequestError::Parse),
        },
        status != 200 && status != 400 ==> (r matches Err(RequestError::Http(s)) && s == status),
{
    if status == 200 {
        match unix {
            Some(t) => Ok(DroptimeData::Available(t)),
            None => Err(RequestError::Parse),
        }
    } else if status == 400 {
        match error {
            Some(e) => Ok(DroptimeData::Unavailable(e)),
            None => Err(RequestError::Parse),
        }
    } else {
        Err(RequestError::Http(status))
    }
}

/// Whether the account may change its name, out of the reply to the
/// name-change query: `allowed` is its `nameChangeAllowed` field.
pub fn eligibility_outcome(status: u16, allowed: Option<bool>) -> (r: Result<(), RequestError>)
    ensures
        status != 200 ==> r == Err::<(), RequestError>(RequestError::Http(status)),
        status == 200 ==> match allowed {
            None => r == Err::<(), RequestError>(RequestError::Parse),
            Some(false) => r == Err::<(), RequestError>(RequestError::NameChangeNotAllowed),
            Some(true) => r is Ok,
        },
{
    if status != 200 {
        return Err(RequestError::Http(status));
    }
    match allowed {
        None => Err(RequestError::Parse),
        Some(false) => Err(RequestError::NameChangeNotAllowed),
        Some(true) => Ok(()),
    }
}

/// The body of a skin upload: the file at `path` or the skin at the URL
/// `path`, with the model `skin_model`.
pub fn skin_upload(path: &str, skin_model: String, is_file: bool) -> (r: SkinUpload)
    ensures
        is_file ==> (r matches SkinUpload::File { variant, path: p } && variant == skin_model && p@ == path@),
        !is_file ==> (r matches SkinUpload::Url { url, variant } && variant == skin_model && url@ == path@),
{
    if is_file {
        SkinUpload::File { variant: skin_model, path: path.to_owned() }
    } else {
        SkinUpload::Url { url: path.to_owned(), variant: skin_model }
    }
}

/// The outcome of a skin upload.
pub fn skin_outcome(status: u16) -> (r: Result<(), RequestError>)
    ensures
        status == 200 ==> r is Ok,
        status != 200 ==> r == Err::<(), RequestError>(RequestError::Http(status)),
{
    if status != 200 {
        return Err(RequestError::Http(status));
    }
    Ok(())
}


/// The JSON body of the Mojang sign-in (keys in the order `serde_json`
/// writes them).
pub open spec fn mojang_sign_in_body(email: Seq<char>, password: Seq<char>) -> Seq<char> {
    "{\"password\":"@ + json_string(password) + ",\"username\":"@ + json_string(email) + "}"@
}

/// The JSON body of the Mojang sign-in: e-mail and password.
pub fn sign_in_body(email: &str, password: &str) -> (r: String)
    ensures
        r@ == mojang_sign_in_body(email@, password@),
{
    let mut r = String::from_str("{\"password\":");
    r.append(json_string_of(password).as_str());
    r.append(",\"username\":");
    r.append(json_string_of(email).as_str());
    r.append("}");
    r
}

/// One security answer as a JSON object.
pub open spec fn answer_object(a: (u64, Seq<char>)) -> Seq<char> {
    "{\"answer\":"@ + json_string(a.1) + ",\"id\":"@ + decimal(a.0 as nat) + "}"@
}

/// The JSON objects of the answers, joined by commas.
pub open spec fn answer_objects(s: Seq<(u64, Seq<char>)>) -> Seq<char>
    decreases s.len(),
{
    if s.len() == 0 {
        Seq::empty()
    } else if s.len() == 1 {
        answer_object(s[0])
    } else {
        answer_objects(s.drop_last()) + ","@ + answer_object(s.last())
    }
}

/// The answers taken by their identifier and text.
pub open spec fn answers_view(v: Seq<SecurityAnswer>) -> Seq<(u64, Seq<char>)> {
    v.map_values(|a: SecurityAnswer| (a.id, a.answer@))
}

/// The JSON body that sends the security answers: an array of objects with
/// the answer and the question's identifier, in order.
pub fn answers_body(answers: &Vec<SecurityAnswer>) -> (r: String)
    ensures
        r@ == "["@ + answer_objects(answers_view(answers@)) + "]"@,
{
    let mut r = String::from_str("[");
    let mut i: usize = 0;
    while i < answers.len()
        invariant
            i <= answers@.len(),
            r@ == "["@ + answer_objects(answers_view(answers@).take(i as int)),
        decreases answers@.len() - i,
    {
        let ghost before = r@;
        if i > 0 {
            r.append(",");
        }
        r.append("{\"answer\":");
        r.append(json_string_of(answers[i].answer.as_str()).as_str());
        r.append(",\"id\":");
        push_decimal(&mut r, answers[i].id);
        r.append("}");
        proof {
            let v = answers_view(answers@);
            assert(v.take(i + 1).drop_last() =~= v.take(i as int));
            assert(v.take(i + 1).last() == v[i as int]);
            if i == 0 {
                assert(v.take(1) =~= seq![v[0]]);
            }
        }
        i = i + 1;
    }
    assert(answers_view(answers@).take(answers@.len() as int) =~= answers_view(answers@));
    r.append("]");
    r
}

/// The JSON body of a skin upload by URL (keys in the order `serde_json`
/// writes them).
pub open spec fn skin_url_body(url: Seq<char>, variant: Seq<char>) -> Seq<char> {
    "{\"url\":"@ + json_string(url) + ",\"variant\":"@ + json_string(variant) + "}"@
}

/// The JSON body of a skin upload by URL: the skin's address and model.
pub fn skin_body(url: &str, variant: &str) -> (r: String)
    ensures
        r@ == skin_url_body(url@, variant@),
{
    let mut r = String::from_str("{\"url\":");
    r.append(json_string_of(url).as_str());
    r.append(",\"variant\":");
    r.append(json_string_of(variant).as_str());
    r.append("}");
    r
}

} // verus!
