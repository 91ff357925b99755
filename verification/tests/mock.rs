use anki_bridge::card_actions::find_cards::FindCardsRequest;
use anki_bridge::{AnkiRequest, AnkiRequestable, Error, FromJson, Json, MockAnkiClient, ToJson};

#[derive(Default, Debug, Clone, PartialEq, Eq)]
pub struct TestRequest {
    pub data: String,
}

#[derive(Default, Debug, Clone, PartialEq, Eq)]
pub struct TestResponse {
    pub data: String,
}

impl ToJson for TestRequest {
    fn to_value(&self) -> Json {
        Json::Object(vec![("data".to_string(), Json::Text(self.data.clone()))])
    }
}

impl FromJson for TestResponse {
    fn from_json(value: &Json) -> Option<TestResponse> {
        match value.get("data") {
            Some(Json::Text(data)) => Some(TestResponse { data: data.clone() }),
            _ => None,
        }
    }
}

impl AnkiRequest for TestRequest {
    type Response = TestResponse;

    const ACTION: &'static str = "testEndpoint";
    const VERSION: u8 = 6;
}

#[test]
fn test_sync_mock_client() {
    let client = MockAnkiClient::<TestRequest, _>::new_mock(|params| {
        Ok(TestResponse {
            data: format!("{}World", params.data),
        })
    });
    let response = client.request(TestRequest {
        data: "Hello".to_string(),
    });
    assert_eq!(String::from("HelloWorld"), response.unwrap().data);
}

#[test]
fn test_sync_find_cards() {
    let client = MockAnkiClient::<FindCardsRequest, _>::new_mock(|params| {
        Ok(vec![123, 456, 789, params.query.len()])
    });
    let response = client.request(FindCardsRequest {
        query: "Card Deck Name".to_string(),
    });
    assert_eq!(
        vec![123, 456, 789, "Card Deck Name".len()],
        response.unwrap()
    );
}

#[test]
fn mock_client_passes_errors_on() {
    let client = MockAnkiClient::<FindCardsRequest, _>::new_mock(|params| {
        Err(Error::Anki(format!("no deck {}", params.query)))
    });
    let response = client.request(FindCardsRequest {
        query: "X".to_string(),
    });
    assert_eq!(response, Err(Error::Anki("no deck X".to_string())));
}

#[test]
fn mock_client_answers_every_call() {
    let client = MockAnkiClient::<FindCardsRequest, _>::new_mock(|params| {
        Ok(vec![1, 2, 3, params.query.len()])
    });
    for query in ["", "X", "deck:current"] {
        let response = client.request(FindCardsRequest {
            query: query.to_string(),
        });
        assert_eq!(response, Ok(vec![1, 2, 3, query.len()]));
    }
}

fn ask<C: AnkiRequestable<FindCardsRequest>>(client: &C, query: &str) -> Result<Vec<usize>, Error> {
    client.request(FindCardsRequest {
        query: query.to_string(),
    })
}

#[test]
fn mock_client_stands_behind_the_dispatch_interface() {
    let client = MockAnkiClient::<FindCardsRequest, _>::new_mock(|params| {
        Ok(vec![1, 2, 3, params.query.len()])
    });
    assert_eq!(ask(&client, "four"), Ok(vec![1, 2, 3, 4]));
}

#[test]
fn test_request_wraps_into_its_envelope() {
    let request = TestRequest {
        data: "Hello".to_string(),
    };
    let bytes = anki_bridge::dispatch::request_body(&request);
    assert_eq!(
        String::from_utf8(bytes).unwrap(),
        "{\"action\":\"testEndpoint\",\"version\":6,\"params\":{\"data\":\"Hello\"}}"
    );
}

#[test]
fn test_response_is_read_from_a_reply() {
    let reply = b"{\"result\":{\"data\":\"HelloWorld\"},\"error\":null}".to_vec();
    let answer = anki_bridge::dispatch::conclude::<TestResponse>(Ok(reply));
    assert_eq!(
        answer,
        Ok(TestResponse {
            data: "HelloWorld".to_string()
        })
    );
}
