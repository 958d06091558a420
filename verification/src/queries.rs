//! The fixed catalog of query specs.
//!
//! A query spec is a named, immutable SQL text plus a flag that says whether
//! its result is printed. The catalog is process-wide fixed data: the run
//! driver walks it in declaration order, and no query depends on another's
//! result. The SQL itself is an opaque payload for the external engine; the
//! harness's only obligation is to hand it over bound to the right catalog.

use vstd::prelude::*;

verus! {

/// A named, immutable SQL statement, plus whether its result is printed.
pub struct QuerySpec {
    pub name: String,
    pub sql: String,
    pub print_result: bool,
}

impl View for QuerySpec {
    type V = (Seq<char>, Seq<char>, bool);

    open spec fn view(&self) -> (Seq<char>, Seq<char>, bool) {
        (self.name@, self.sql@, self.print_result)
    }
}

/// Where the versioned dataset lives.
pub open spec fn spec_dataset_location() -> Seq<char> {
    "hdfs://127.0.1.1:9000/delta/spotify"@
}

/// Which snapshot of the dataset is bound; the earliest one.
pub open spec fn spec_dataset_version() -> u64 {
    0
}

/// The logical table name the dataset is bound under.
pub open spec fn spec_table_name() -> Seq<char> {
    "demo"@
}

pub open spec fn sql_best_genre_each_year() -> Seq<char> {
    "
        WITH avgGenrePopulerYear(year, genre, avg_popularity) as (
                select year, genre, avg(popularity)
                from demo
                where popularity is not null
                group by year, genre),
            maxAvgPopulerYear(year, max_popularity) as (
                select year, max(avg_popularity)
                from avgGenrePopulerYear
                group by year)
        select avgGenrePopulerYear.year, genre, avg_popularity
        from avgGenrePopulerYear
        join maxAvgPopulerYear
        on avg_popularity = max_popularity
        order by avgGenrePopulerYear.year
    "@
}

pub open spec fn sql_best_song_in_year() -> Seq<char> {
    "
        WITH bestSonginYear(year, genre, max_popularity) as (
            select year, genre, max(popularity)
            from demo
            where popularity is not null
            group by year, genre
        )
        SELECT demo.year, artist_name, track_name, max_popularity as popularity
        FROM (
            select year, max(max_popularity) max_popularity from bestSonginYear
            group by year
        ) a JOIN demo
        ON max_popularity = popularity and a.year = demo.year
        ORDER BY demo.year
    "@
}

pub open spec fn sql_best_song_of_heavy_metal() -> Seq<char> {
    "
        WITH bestOfHeavyMetal(genre, max_popularity) as (
            select genre, max(popularity)
            from demo
            where genre = 'heavy-metal'
            group by genre
        )
        SELECT artist_name, track_name, popularity
        FROM demo
        JOIN bestOfHeavyMetal
        ON popularity = max_popularity
        WHERE demo.genre = 'heavy-metal'
    "@
}

pub open spec fn sql_best_song_of_pop_genre_in_year() -> Seq<char> {
    "
        WITH bestOfPop(year, genre, max_popularity) as (
            select year, genre, max(popularity)
            from demo
            where genre = 'pop'
            group by year, genre
        )
        SELECT demo.year, artist_name, track_name, popularity
        FROM demo
        JOIN bestOfPop
        ON popularity = max_popularity and demo.year = bestOfPop.year
        WHERE demo.genre = 'pop'
        ORDER by demo.year
    "@
}

pub open spec fn sql_top_10_artist_with_popularity_over80() -> Seq<char> {
    "
        SELECT artist_name, COUNT(artist_name) best_artist
        FROM demo
        WHERE popularity >= 80
        GROUP BY artist_name
        ORDER BY best_artist DESC
        LIMIT 10
    "@
}

pub open spec fn sql_stats_tempo_each_genre() -> Seq<char> {
    "
        WITH avgTempoGenre(genre, min_tempo, avg_tempo, max_tempo) as (
            select genre, min(tempo), avg(tempo), max(tempo)
            from demo
            where tempo is not null and tempo > 20
            group by genre
            order by genre
        )
        SELECT * FROM avgTempoGenre
    "@
}

pub open spec fn sql_top_10_genre_danceability() -> Seq<char> {
    "
        WITH avgDanceableGenre(genre, avg_danceable_genre) as (
                select genre, avg(dancebility)
                from demo
                where dancebility > 0.2 and dancebility < 1
                group by genre
                order by genre
        ),
            avgDanceableSong(avg_danceable) as (
                select avg(avg_danceable_genre)
                from avgDanceableGenre
        )
        SELECT genre, avg_danceable_genre danceability
        FROM avgDanceableGenre
        WHERE avg_danceable_genre >= 0.557
        ORDER BY avg_danceable_genre DESC
        LIMIT 10
    "@
}

pub open spec fn sql_best_song_2023_based_popularity_and_genre() -> Seq<char> {
    "
        WITH bestGenrein2023(year, genre, max_popularity) as (
            select year, genre, max(popularity)
            from demo
            where year = '2023'
            group by year, genre
        )
        SELECT artist_name, track_name, demo.genre, popularity
        FROM demo
        JOIN bestGenrein2023 a
        ON demo.genre = a.genre and popularity = max_popularity
        WHERE demo.year = '2023'
        ORDER BY demo.genre
    "@
}

/// The fixed catalog, in execution order: name, SQL text, print flag.
pub open spec fn spec_queries() -> Seq<(Seq<char>, Seq<char>, bool)> {
    seq![
        ("best_genre_each_year"@, sql_best_genre_each_year(), true),
        ("best_song_in_year"@, sql_best_song_in_year(), true),
        ("best_song_of_heavy_metal"@, sql_best_song_of_heavy_metal(), true),
        ("best_song_of_pop_genre_in_year"@, sql_best_song_of_pop_genre_in_year(), true),
        ("top_10_artist_with_popularity_over80"@, sql_top_10_artist_with_popularity_over80(), true),
        ("stats_tempo_each_genre"@, sql_stats_tempo_each_genre(), true),
        ("top_10_genre_danceability"@, sql_top_10_genre_danceability(), true),
        (
            "best_song_2023_based_popularity_and_genre"@,
            sql_best_song_2023_based_popularity_and_genre(),
            true,
        ),
    ]
}

fn make_spec(name: &str, sql: &str, print_result: bool) -> (q: QuerySpec)
    ensures
        q@ == (name@, sql@, print_result),
{
    QuerySpec { name: name.to_owned(), sql: sql.to_owned(), print_result }
}

/// The fixed list of named queries the run driver executes, in declaration
/// order.
pub fn fixed_queries() -> (r: Vec<QuerySpec>)
    ensures
        r@.map_values(|q: QuerySpec| q@) == spec_queries(),
{
    let mut r: Vec<QuerySpec> = Vec::new();
    r.push(
        make_spec(
            "best_genre_each_year",
            "
        WITH avgGenrePopulerYear(year, genre, avg_popularity) as (
                select year, genre, avg(popularity)
                from demo
                where popularity is not null
                group by year, genre),
            maxAvgPopulerYear(year, max_popularity) as (
                select year, max(avg_popularity)
                from avgGenrePopulerYear
                group by year)
        select avgGenrePopulerYear.year, genre, avg_popularity
        from avgGenrePopulerYear
        join maxAvgPopulerYear
        on avg_popularity = max_popularity
        order by avgGenrePopulerYear.year
    ",
            true,
        ),
    );
    r.push(
        make_spec(
            "best_song_in_year",
            "
        WITH bestSonginYear(year, genre, max_popularity) as (
            select year, genre, max(popularity)
            from demo
            where popularity is not null
            group by year, genre
        )
        SELECT demo.year, artist_name, track_name, max_popularity as popularity
        FROM (
            select year, max(max_popularity) max_popularity from bestSonginYear
            group by year
        ) a JOIN demo
        ON max_popularity = popularity and a.year = demo.year
        ORDER BY demo.year
    ",
            true,
        ),
    );
    r.push(
        make_spec(
            "best_song_of_heavy_metal",
            "
        WITH bestOfHeavyMetal(genre, max_popularity) as (
            select genre, max(popularity)
            from demo
            where genre = 'heavy-metal'
            group by genre
        )
        SELECT artist_name, track_name, popularity
        FROM demo
        JOIN bestOfHeavyMetal
        ON popularity = max_popularity
        WHERE demo.genre = 'heavy-metal'
    ",
            true,
        ),
    );
    r.push(
        make_spec(
            "best_song_of_pop_genre_in_year",
            "
        WITH bestOfPop(year, genre, max_popularity) as (
            select year, genre, max(popularity)
            from demo
            where genre = 'pop'
            group by year, genre
        )
        SELECT demo.year, artist_name, track_name, popularity
        FROM demo
        JOIN bestOfPop
        ON popularity = max_popularity and demo.year = bestOfPop.year
        WHERE demo.genre = 'pop'
        ORDER by demo.year
    ",
            true,
        ),
    );
    r.push(
        make_spec(
            "top_10_artist_with_popularity_over80",
            "
        SELECT artist_name, COUNT(artist_name) best_artist
        FROM demo
        WHERE popularity >= 80
        GROUP BY artist_name
        ORDER BY best_artist DESC
        LIMIT 10
    ",
            true,
        ),
    );
    r.push(
        make_spec(
            "stats_tempo_each_genre",
            "
        WITH avgTempoGenre(genre, min_tempo, avg_tempo, max_tempo) as (
            select genre, min(tempo), avg(tempo), max(tempo)
            from demo
            where tempo is not null and tempo > 20
            group by genre
            order by genre
        )
        SELECT * FROM avgTempoGenre
    ",
            true,
        ),
    );
    r.push(
        make_spec(
            "top_10_genre_danceability",
            "
        WITH avgDanceableGenre(genre, avg_danceable_genre) as (
                select genre, avg(dancebility)
                from demo
                where dancebility > 0.2 and dancebility < 1
                group by genre
                order by genre
        ),
            avgDanceableSong(avg_danceable) as (
                select avg(avg_danceable_genre)
                from avgDanceableGenre
        )
        SELECT genre, avg_danceable_genre danceability
        FROM avgDanceableGenre
        WHERE avg_danceable_genre >= 0.557
        ORDER BY avg_danceable_genre DESC
        LIMIT 10
    ",
            true,
        ),
    );
    r.push(
        make_spec(
            "best_song_2023_based_popularity_and_genre",
            "
        WITH bestGenrein2023(year, genre, max_popularity) as (
            select year, genre, max(popularity)
            from demo
            where year = '2023'
            group by year, genre
        )
        SELECT artist_name, track_name, demo.genre, popularity
        FROM demo
        JOIN bestGenrein2023 a
        ON demo.genre = a.genre and popularity = max_popularity
        WHERE demo.year = '2023'
        ORDER BY demo.genre
    ",
            true,
        ),
    );
    proof {
        assert(r@.map_values(|q: QuerySpec| q@) =~= spec_queries());
    }
    r
}

/// The fixed dataset location the run binds.
pub fn dataset_location() -> (r: String)
    ensures
        r@ == spec_dataset_location(),
{
    "hdfs://127.0.1.1:9000/delta/spotify".to_owned()
}

/// The fixed snapshot version the run binds.
pub fn dataset_version() -> (r: u64)
    ensures
        r == spec_dataset_version(),
{
    0
}

/// The fixed logical table name the run binds the dataset under.
pub fn table_name() -> (r: String)
    ensures
        r@ == spec_table_name(),
{
    "demo".to_owned()
}

} // verus!
