use worker_pool::aggregator::{notify, return_news_article, return_tweet, Summary};
use worker_pool::blog::Post;
use worker_pool::gui::{hello, Button, Dog, Draw, Screen, Screen2, SelectBox};
use worker_pool::shirts::{Inventory, ShirtColor};

#[test]
fn post_shows_text_once_published() {
    let mut post = Post::new();

    post.add_text("I ate a salad for lunch today");
    assert_eq!("", post.content());

    post.request_review();
    assert_eq!("", post.content());

    post.approve();
    assert_eq!("I ate a salad for lunch today", post.content());
}

#[test]
fn draft_cannot_skip_review() {
    let mut post = Post::new();
    post.add_text("draft");
    post.approve();
    assert_eq!("", post.content());
    post.request_review();
    post.request_review();
    post.approve();
    assert_eq!("draft", post.content());
}

#[test]
fn summaries() {
    let tweet = return_tweet();
    assert_eq!(tweet.summarize(), "popo: 포포는 잠이 좋아");
    let article = return_news_article();
    assert_eq!(article.summarize(), "월급 200% 인상 소식..., by iseol (서울, 대한민국)");
    assert_eq!(notify(&tweet), "news! : popo: 포포는 잠이 좋아");
}

#[test]
fn screens_draw_components() {
    let screen = Screen {
        components: vec![
            Box::new(Button { width: 30, height: 40, label: String::from("my button") }),
            Box::new(SelectBox {
                width: 70,
                height: 35,
                options: vec![String::from("option1"), String::from("option2")],
            }),
        ],
    };
    assert_eq!(
        screen.run(),
        vec![
            "Button: (30,40) my button".to_string(),
            "SelectBox: (70,35) [\"option1\", \"option2\"]".to_string(),
        ]
    );
    let screen2 = Screen2 { components: vec![Button { width: 1, height: 2, label: String::from("ok") }] };
    assert_eq!(screen2.run(), vec!["Button: (1,2) ok".to_string()]);
}

#[test]
fn dogs_bark() {
    assert_eq!(Dog::new(String::from("꼬리"), 9).bark(), "올해 나이 9살인 꼬리이/가 짖습니다.");
    assert_eq!(hello(), "올해 나이 9살인 꼬리이/가 짖습니다.");
}

#[test]
fn giveaway_prefers_the_customer() {
    let store = Inventory { shirts: vec![ShirtColor::Blue, ShirtColor::Red, ShirtColor::Blue] };
    assert_eq!(store.giveaway(Some(ShirtColor::Red)), ShirtColor::Red);
    assert_eq!(store.giveaway(None), ShirtColor::Blue);
    let store = Inventory { shirts: vec![ShirtColor::Red, ShirtColor::Red, ShirtColor::Blue] };
    assert_eq!(store.most_stocked(), ShirtColor::Red);
    let store = Inventory { shirts: vec![ShirtColor::Red, ShirtColor::Blue] };
    assert_eq!(store.most_stocked(), ShirtColor::Blue);
    let store = Inventory { shirts: vec![] };
    assert_eq!(store.most_stocked(), ShirtColor::Blue);
}
