use ident_candidates::candidate::{decode_answer, read_candidates};
use ident_candidates::client::EXAMPLE_ANSWER;
use ident_candidates::response::wrapped_answer;
use ident_candidates::{Client, FetchError, IdentifierCandidate};
use serde_json::Value;

fn client() -> Client {
    Client::new(Some("secret".to_string())).unwrap()
}

fn candidate(name: &str, desc: &str) -> IdentifierCandidate {
    IdentifierCandidate { name: name.to_string(), desc: desc.to_string() }
}

fn object(members: Vec<(&str, Value)>) -> Value {
    let mut map = serde_json::Map::new();
    for (key, value) in members {
        map.insert(key.to_string(), value);
    }
    Value::Object(map)
}

fn text(s: &str) -> Value {
    Value::String(s.to_string())
}

/// A reply in the service's envelope whose answer node is `answer`.
fn reply_with(answer: Value) -> Value {
    let part = object(vec![("text", answer)]);
    let content = object(vec![("parts", Value::Array(vec![part])), ("role", text("model"))]);
    let first = object(vec![("content", content), ("finishReason", text("STOP"))]);
    object(vec![("candidates", Value::Array(vec![first]))])
}

#[test]
fn upstream_error_is_surfaced() {
    let body = r#"{"error":{"code":400,"message":"API key not valid.","status":"INVALID_ARGUMENT"}}"#;
    assert_eq!(
        client().get_candidates(body),
        Err(FetchError::UpstreamError(
            r#"{"code":400,"message":"API key not valid.","status":"INVALID_ARGUMENT"}"#.to_string()
        ))
    );
}

#[test]
fn upstream_error_is_written_compactly() {
    let body = "{ \"error\" : { \"message\" : \"quota\" ,\n \"code\" : 429 } }";
    assert_eq!(
        client().get_candidates(body),
        Err(FetchError::UpstreamError(r#"{"code":429,"message":"quota"}"#.to_string()))
    );
}

#[test]
fn upstream_error_wins_over_an_answer() {
    let mut reply = reply_with(text(r#"[{"name":"foo","desc":"bar"}]"#));
    reply.as_object_mut().unwrap().insert("error".to_string(), text("boom"));
    assert_eq!(
        client().get_candidates(&reply.to_string()),
        Err(FetchError::UpstreamError("\"boom\"".to_string()))
    );
    assert_eq!(wrapped_answer(&reply), Err(FetchError::UpstreamError("\"boom\"".to_string())));
}

#[test]
fn upstream_error_wins_over_an_unreadable_answer() {
    let mut reply = reply_with(text("[{"));
    reply.as_object_mut().unwrap().insert("error".to_string(), Value::Null);
    assert_eq!(
        client().get_candidates(&reply.to_string()),
        Err(FetchError::UpstreamError("null".to_string()))
    );
}

#[test]
fn escaped_answer_yields_one_candidate() {
    let body = r#"{"candidates":[{"content":{"parts":[{"text":"[{\"name\":\"foo\",\"desc\":\"bar\"}]"}]}}]}"#;
    assert_eq!(client().get_candidates(body), Ok(vec![candidate("foo", "bar")]));
}

#[test]
fn escaped_answer_text_yields_one_candidate() {
    let raw = r#""[{\"name\":\"foo\",\"desc\":\"bar\"}]""#;
    assert_eq!(decode_answer(raw), Ok(vec![candidate("foo", "bar")]));
}

#[test]
fn wrapped_answer_is_the_json_text_of_the_node() {
    let reply = reply_with(text(r#"[{"name":"foo","desc":"bar"}]"#));
    assert_eq!(
        wrapped_answer(&reply),
        Ok(r#""[{\"name\":\"foo\",\"desc\":\"bar\"}]""#.to_string())
    );
}

#[test]
fn only_the_first_candidate_and_part_count() {
    let body = r#"{"candidates":[
        {"content":{"parts":[{"text":"[{\"name\":\"a\",\"desc\":\"b\"}]"},{"text":"[]"}]}},
        {"content":{"parts":[{"text":"[{\"name\":\"c\",\"desc\":\"d\"}]"}]}}
    ]}"#;
    assert_eq!(client().get_candidates(body), Ok(vec![candidate("a", "b")]));
}

#[test]
fn missing_text_path_is_an_unexpected_shape() {
    let bodies = [
        r#"{}"#,
        r#"{"candidates":[]}"#,
        r#"{"candidates":{}}"#,
        r#"{"candidates":[{}]}"#,
        r#"{"candidates":[{"content":{}}]}"#,
        r#"{"candidates":[{"content":{"parts":[]}}]}"#,
        r#"{"candidates":[{"content":{"parts":[{}]}}]}"#,
        r#"{"candidates":[{"content":{"parts":[{"TEXT":"[]"}]}}]}"#,
        r#"{"candidates":[{"content":{"parts":{"text":"[]"}}}]}"#,
        r#"{"candidates":[{"finishReason":"SAFETY"}],"promptFeedback":{}}"#,
    ];
    for body in bodies {
        assert_eq!(
            client().get_candidates(body),
            Err(FetchError::UnexpectedResponseShape),
            "{}",
            body
        );
    }
}

#[test]
fn null_text_is_an_unexpected_shape() {
    let body = r#"{"candidates":[{"content":{"parts":[{"text":null}]}}]}"#;
    assert_eq!(client().get_candidates(body), Err(FetchError::UnexpectedResponseShape));
    assert_eq!(wrapped_answer(&reply_with(Value::Null)), Err(FetchError::UnexpectedResponseShape));
}

#[test]
fn reply_that_is_no_object_is_an_unexpected_shape() {
    for body in ["[1,2]", "null", "\"error\"", "42", "true"] {
        assert_eq!(
            client().get_candidates(body),
            Err(FetchError::UnexpectedResponseShape),
            "{}",
            body
        );
    }
}

#[test]
fn reply_that_is_no_json_is_an_unexpected_shape() {
    for body in ["", "<html>502</html>", "{", "{\"candidates\":", "{} {}", "{'error': 1}"] {
        assert_eq!(
            client().get_candidates(body),
            Err(FetchError::UnexpectedResponseShape),
            "{}",
            body
        );
    }
}

#[test]
fn truncated_answer_is_malformed() {
    let body = r#"{"candidates":[{"content":{"parts":[{"text":"[{\"name\":\"foo\",\"desc\":\"ba"}]}}]}"#;
    assert_eq!(client().get_candidates(body), Err(FetchError::MalformedCandidateList));
}

#[test]
fn answer_that_is_no_json_is_malformed() {
    for raw in ["", "\"\"", "[", "[{", "sorry, I cannot help", "[{\\\"name\\\":\\\"foo\\\",", "[] []"] {
        assert_eq!(decode_answer(raw), Err(FetchError::MalformedCandidateList), "{}", raw);
    }
}

#[test]
fn answer_that_is_no_list_of_records_is_malformed() {
    let answers = [
        r#"{"candidates":[{"name":"a","desc":"b"}]}"#,
        r#"{"name":"a","desc":"b"}"#,
        r#"null"#,
        r#"5"#,
        r#"[1]"#,
        r#"[null]"#,
        r#"["a","b"]"#,
        r#"[["a","b"]]"#,
        r#"[{"name":"a"}]"#,
        r#"[{"desc":"b"}]"#,
        r#"[{"name":"a","desc":null}]"#,
        r#"[{"name":1,"desc":"b"}]"#,
        r#"[{"name":"a","desc":["b"]}]"#,
        r#"[{"Name":"a","Desc":"b"}]"#,
        r#"[{"name":"a","desc":"b"},{"name":"c"}]"#,
        r#"[{"name":"a","desc":"b"},7,{"name":"c","desc":"d"}]"#,
    ];
    for answer in answers {
        assert_eq!(decode_answer(answer), Err(FetchError::MalformedCandidateList), "{}", answer);
        let doc: Value = serde_json::from_str(answer).unwrap();
        assert_eq!(read_candidates(&doc), Err(FetchError::MalformedCandidateList), "{}", answer);
    }
}

#[test]
fn quote_inside_a_description_breaks_the_answer() {
    // the model's text is [{"name":"a","desc":"say \"hi\""}]: once every
    // backslash is gone, the description ends early
    let inner = r#"[{"name":"a","desc":"say \"hi\""}]"#;
    assert_eq!(
        client().get_candidates(&reply_with(text(inner)).to_string()),
        Err(FetchError::MalformedCandidateList)
    );
}

#[test]
fn backslash_inside_a_description_is_lost() {
    // the model's text is [{"name":"a","desc":"C:\\dir"}]
    let inner = r#"[{"name":"a","desc":"C:\\dir"}]"#;
    assert_eq!(
        client().get_candidates(&reply_with(text(inner)).to_string()),
        Ok(vec![candidate("a", "C:dir")])
    );
}

#[test]
fn newlines_in_the_answer_are_dropped() {
    let inner = "[\n  {\"name\": \"a\",\n   \"desc\": \"b\"}\n]\n";
    assert_eq!(
        client().get_candidates(&reply_with(text(inner)).to_string()),
        Ok(vec![candidate("a", "b")])
    );
}

#[test]
fn empty_list_is_a_list() {
    assert_eq!(decode_answer("\"[]\""), Ok(Vec::new()));
    assert_eq!(client().get_candidates(&reply_with(text("[]")).to_string()), Ok(Vec::new()));
    assert_eq!(read_candidates(&Value::Array(Vec::new())), Ok(Vec::new()));
}

#[test]
fn other_members_of_a_record_are_ignored() {
    let answer = r#"[{"desc":"b","rank":1,"name":"a","tags":["x"],"note":null}]"#;
    assert_eq!(decode_answer(answer), Ok(vec![candidate("a", "b")]));
}

#[test]
fn order_and_duplicates_are_kept() {
    let answer = r#"[{"name":"z","desc":"1"},{"name":"a","desc":"2"},{"name":"z","desc":"1"},{"name":"m","desc":""}]"#;
    assert_eq!(
        decode_answer(answer),
        Ok(vec![candidate("z", "1"), candidate("a", "2"), candidate("z", "1"), candidate("m", "")])
    );
}

#[test]
fn read_candidates_reads_a_built_document() {
    let doc = Value::Array(vec![
        object(vec![("name", text("parseLine")), ("desc", text("reads one line"))]),
        object(vec![("desc", text("新しいタスク")), ("name", text("newTask"))]),
    ]);
    assert_eq!(
        read_candidates(&doc),
        Ok(vec![candidate("parseLine", "reads one line"), candidate("newTask", "新しいタスク")])
    );
}

#[test]
fn answer_that_is_an_array_node_is_read_as_it_stands() {
    let node = Value::Array(vec![object(vec![("name", text("a")), ("desc", text("b"))])]);
    let reply = reply_with(node);
    assert_eq!(wrapped_answer(&reply), Ok(r#"[{"desc":"b","name":"a"}]"#.to_string()));
    assert_eq!(client().get_candidates(&reply.to_string()), Ok(vec![candidate("a", "b")]));
}

#[test]
fn answer_that_is_a_number_is_malformed() {
    let body = r#"{"candidates":[{"content":{"parts":[{"text":12.5}]}}]}"#;
    assert_eq!(client().get_candidates(body), Err(FetchError::MalformedCandidateList));
    assert_eq!(wrapped_answer(&serde_json::from_str(body).unwrap()), Ok("12.5".to_string()));
}

#[test]
fn example_answer_round_trips() {
    let serialized = Value::String(EXAMPLE_ANSWER.to_string()).to_string();
    assert!(serialized.starts_with("\"[\\n"));
    let expected = vec![
        candidate(
            "createTask",
            "動詞+名詞の組み合わせで、関数の目的を明確に表す一般的な命名規則",
        ),
        candidate("addTask", "`createTask`と同様に関数の目的を表すが、より簡潔"),
        candidate("newTask", "新しいタスクを作成するという意味を強調"),
        candidate("generateTask", "タスクを自動的に生成するような場合に適している"),
        candidate("buildTask", "タスクを構築するイメージ"),
    ];
    assert_eq!(decode_answer(&serialized), Ok(expected.clone()));
    let body = reply_with(text(EXAMPLE_ANSWER)).to_string();
    let got = client().get_candidates(&body).unwrap();
    assert_eq!(got, expected);
    let names: Vec<&str> = got.iter().map(|c| c.name.as_str()).collect();
    assert_eq!(names, vec!["createTask", "addTask", "newTask", "generateTask", "buildTask"]);
}

#[test]
fn failed_exchange_is_a_network_failure() {
    assert_eq!(
        client().conclude(Err("connection refused".to_string())),
        Err(FetchError::NetworkFailure("connection refused".to_string()))
    );
    assert_eq!(
        client().conclude(Err(String::new())),
        Err(FetchError::NetworkFailure(String::new()))
    );
}

#[test]
fn completed_exchange_is_judged_by_its_body() {
    let body = r#"{"candidates":[{"content":{"parts":[{"text":"[{\"name\":\"foo\",\"desc\":\"bar\"}]"}]}}]}"#;
    assert_eq!(client().conclude(Ok(body.to_string())), Ok(vec![candidate("foo", "bar")]));
    assert_eq!(
        client().conclude(Ok(r#"{"error":"denied"}"#.to_string())),
        Err(FetchError::UpstreamError("\"denied\"".to_string()))
    );
    assert_eq!(client().conclude(Ok("{}".to_string())), Err(FetchError::UnexpectedResponseShape));
    assert_eq!(
        client().conclude(Ok(reply_with(text("oops")).to_string())),
        Err(FetchError::MalformedCandidateList)
    );
}

#[test]
fn messages_describe_each_failure() {
    assert_eq!(FetchError::MissingApiKey.message(), "GEMINI_API_KEY is not set");
    assert_eq!(FetchError::NetworkFailure("connection reset".to_string()).message(), "connection reset");
    assert_eq!(
        FetchError::UpstreamError(r#"{"code":500}"#.to_string()).message(),
        r#"{"code":500}"#
    );
    assert_eq!(FetchError::UnexpectedResponseShape.message(), "Unexpected error.");
    assert_eq!(
        FetchError::MalformedCandidateList.message(),
        "The answer is not a list of candidates."
    );
}
