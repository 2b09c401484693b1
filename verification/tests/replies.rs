use buckshot::requests::{
    answers_outcome, bearer_token_outcome, droptime_outcome, eligibility_outcome, questions_outcome,
    security_answers, skin_outcome, skin_upload, DroptimeData, QuestionData, QuestionID, RequestError, SkinUpload,
};

fn questions(a: u64, b: u64, c: u64) -> [QuestionData; 3] {
    [
        QuestionData { answer: QuestionID { id: a } },
        QuestionData { answer: QuestionID { id: b } },
        QuestionData { answer: QuestionID { id: c } },
    ]
}

#[test]
fn mojang_sign_in_reply() {
    assert_eq!(bearer_token_outcome(200, Some("abc".to_string())).ok(), Some("abc".to_string()));
    assert_eq!(bearer_token_outcome(200, None).err(), Some(RequestError::Parse));
    assert_eq!(bearer_token_outcome(403, Some("abc".to_string())).err(), Some(RequestError::IncorrectCredentials));
    assert_eq!(bearer_token_outcome(429, None).err(), Some(RequestError::Http(429)));
}

#[test]
fn security_question_listing() {
    assert_eq!(questions_outcome(200, "[]", None), Ok(None));
    assert_eq!(questions_outcome(200, "[]", Some(questions(1, 2, 3))), Ok(None));
    assert_eq!(questions_outcome(200, "[{...}]", Some(questions(1, 2, 3))), Ok(Some(questions(1, 2, 3))));
    assert_eq!(questions_outcome(200, "[ ]", None), Err(RequestError::Parse));
    assert_eq!(questions_outcome(401, "[]", None), Err(RequestError::Http(401)));
}

#[test]
fn security_answers_are_paired_in_order() {
    let answers = Some(["Foo".to_string(), "Bar".to_string(), "Baz".to_string()]);
    let v = security_answers(Some(questions(7, 8, 9)), &answers).ok().unwrap().unwrap();
    assert_eq!(v.len(), 3);
    assert_eq!((v[0].id, v[0].answer.as_str()), (7, "Foo"));
    assert_eq!((v[1].id, v[1].answer.as_str()), (8, "Bar"));
    assert_eq!((v[2].id, v[2].answer.as_str()), (9, "Baz"));
    assert!(security_answers(None, &answers).ok().unwrap().is_none());
    assert!(security_answers(None, &None).ok().unwrap().is_none());
    assert_eq!(security_answers(Some(questions(7, 8, 9)), &None).err(), Some(RequestError::SqAnswersRequired));
}

#[test]
fn security_answer_reply() {
    assert_eq!(answers_outcome(204), Ok(()));
    assert_eq!(answers_outcome(403), Err(RequestError::IncorrectSecurityAnswers));
    assert_eq!(answers_outcome(200), Err(RequestError::Http(200)));
}

#[test]
fn droptime_reply() {
    match droptime_outcome(200, Some(1_640_000_000), None) {
        Ok(DroptimeData::Available(t)) => assert_eq!(t, 1_640_000_000),
        _ => panic!("expected a droptime"),
    }
    match droptime_outcome(400, None, Some("name is not dropping".to_string())) {
        Ok(DroptimeData::Unavailable(e)) => assert_eq!(e, "name is not dropping"),
        _ => panic!("expected the service's reason"),
    }
    assert!(matches!(droptime_outcome(200, None, Some("x".to_string())), Err(RequestError::Parse)));
    assert!(matches!(droptime_outcome(400, Some(1), None), Err(RequestError::Parse)));
    assert!(matches!(droptime_outcome(500, Some(1), None), Err(RequestError::Http(500))));
}

#[test]
fn name_change_eligibility_reply() {
    assert_eq!(eligibility_outcome(200, Some(true)), Ok(()));
    assert_eq!(eligibility_outcome(200, Some(false)), Err(RequestError::NameChangeNotAllowed));
    assert_eq!(eligibility_outcome(200, None), Err(RequestError::Parse));
    assert_eq!(eligibility_outcome(401, Some(true)), Err(RequestError::Http(401)));
}

#[test]
fn skin_upload_body_and_reply() {
    match skin_upload("skins/skin.png", "classic".to_string(), true) {
        SkinUpload::File { variant, path } => {
            assert_eq!(variant, "classic");
            assert_eq!(path, "skins/skin.png");
        }
        SkinUpload::Url { .. } => panic!("expected a file upload"),
    }
    match skin_upload("https://texture.namemc.com/f7/a2/f7a2edf56e1bbad3.png", "slim".to_string(), false) {
        SkinUpload::Url { url, variant } => {
            assert_eq!(url, "https://texture.namemc.com/f7/a2/f7a2edf56e1bbad3.png");
            assert_eq!(variant, "slim");
        }
        SkinUpload::File { .. } => panic!("expected a URL upload"),
    }
    assert_eq!(skin_outcome(200), Ok(()));
    assert_eq!(skin_outcome(400), Err(RequestError::Http(400)));
}
