use haisin::{ArticleFieldName, AuthorFieldName, Field, PostFieldName};

#[test]
fn paths_name_entity_and_field() {
    assert_eq!(Field::Article(ArticleFieldName::Id).path(), "article.id");
    assert_eq!(Field::Article(ArticleFieldName::Url).path(), "article.url");
    assert_eq!(Field::Article(ArticleFieldName::Title).path(), "article.title");
    assert_eq!(Field::Article(ArticleFieldName::Posts).path(), "article.posts");
    assert_eq!(Field::Post(PostFieldName::Author).path(), "post.author");
    assert_eq!(Field::Post(PostFieldName::Id).path(), "post.id");
    assert_eq!(Field::Post(PostFieldName::Title).path(), "post.title");
    assert_eq!(Field::Post(PostFieldName::ImageUrl).path(), "post.image_url");
    assert_eq!(Field::Post(PostFieldName::PublishedAt).path(), "post.published_at");
    assert_eq!(Field::Post(PostFieldName::UpdatedAt).path(), "post.updated_at");
    assert_eq!(Field::Post(PostFieldName::Summary).path(), "post.summary");
    assert_eq!(Field::Post(PostFieldName::Content).path(), "post.content");
    assert_eq!(Field::Post(PostFieldName::Url).path(), "post.url");
    assert_eq!(Field::Author(AuthorFieldName::Id).path(), "author.id");
    assert_eq!(Field::Author(AuthorFieldName::Name).path(), "author.name");
    assert_eq!(Field::Author(AuthorFieldName::Alias).path(), "author.alias");
    assert_eq!(Field::Author(AuthorFieldName::IconUrl).path(), "author.icon_url");
}
