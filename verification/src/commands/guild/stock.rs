use crate::builders::embed::{empty_embed, EmbedData, EmbedView, COLOR_RED};
use crate::commands::option_data::{history, history_desc, info, info_desc};
use crate::commands::option_data::{stock as stock_opt, stock_desc as stock_opt_desc};
use crate::commands::{
    leaf, leaf_view, sub_command_one, sub_view, CommandKind, CommandSchema, CommandSchemaView,
    LeafOptionKind, TopOption, TopOptionView,
};
use crate::util::{
    dec_of, format_table, rows_view, str_eq, table_text, u64_to_dec, LocalizedString,
};
use vstd::prelude::*;

verus! {

pub fn name() -> (r: LocalizedString)
    ensures
        r.en@ == "fear"@,
{
    LocalizedString { en: "fear" }
}

pub fn desc() -> (r: LocalizedString)
    ensures
        r.en@ == "Commands accessing the fear-index!"@,
{
    LocalizedString { en: "Commands accessing the fear-index!" }
}

/// The command that reports stock quotes.
pub struct StockCmd;

impl StockCmd {
    pub fn name() -> (r: LocalizedString)
        ensures
            r.en@ == "fear"@,
    {
        name()
    }

    /// The schema the stock command registers: an info and a history
    /// sub-command, each with a free-text symbol list.
    pub open spec fn schema_view() -> CommandSchemaView {
        CommandSchemaView {
            name: "fear"@,
            name_locale_en: None,
            description: "Commands accessing the fear-index!"@,
            description_locale_en: None,
            kind: CommandKind::ChatInput,
            options: seq![
                TopOptionView::Sub(
                    sub_view(
                        "info"@,
                        "Retrieve information!"@,
                        seq![leaf_view(LeafOptionKind::Text, "stock"@, "Retrieve stocks!"@)],
                    ),
                ),
                TopOptionView::Sub(
                    sub_view(
                        "history"@,
                        "Retrieve stock history!"@,
                        seq![leaf_view(LeafOptionKind::Text, "stock"@, "Retrieve stocks!"@)],
                    ),
                ),
            ],
        }
    }

    pub fn to_application_command() -> (r: CommandSchema)
        ensures
            r@ == Self::schema_view(),
    {
        let mut options: Vec<TopOption> = Vec::new();
        options.push(
            TopOption::Sub(
                sub_command_one(
                    info(),
                    info_desc(),
                    leaf(LeafOptionKind::Text, stock_opt(), stock_opt_desc()),
                ),
            ),
        );
        options.push(
            TopOption::Sub(
                sub_command_one(
                    history(),
                    history_desc(),
                    leaf(LeafOptionKind::Text, stock_opt(), stock_opt_desc()),
                ),
            ),
        );
        proof {
            assert(options@.map_values(|o: TopOption| o@) =~= Self::schema_view().options);
        }
        CommandSchema {
            name: String::from_str(name().en),
            name_locale_en: None,
            description: String::from_str(desc().en),
            description_locale_en: None,
            kind: CommandKind::ChatInput,
            options: options,
        }
    }
}

/// The stock attributes an embed can report.
#[derive(Debug, Clone, Copy, PartialEq, Eq, Structural)]
pub enum StockPropertyTypes {
    History,
}

/// The stock attribute a raw sub-command name selects, if any.
pub open spec fn stock_property_of_name(s: Seq<char>) -> Option<StockPropertyTypes> {
    if s == "history"@ {
        Some(StockPropertyTypes::History)
    } else {
        None
    }
}

impl StockPropertyTypes {
    pub fn from_name(s: &str) -> (r: Result<StockPropertyTypes, ()>)
        ensures
            match stock_property_of_name(s@) {
                Some(v) => r == Ok::<StockPropertyTypes, ()>(v),
                None => r is Err,
            },
    {
        if crate::util::str_eq(s, "history") {
            Ok(StockPropertyTypes::History)
        } else {
            Err(())
        }
    }
}

/// A number in decimal with its sign, as rounded prices are written.
pub open spec fn int_dec(v: int) -> Seq<char> {
    if v < 0 {
        seq!['-'] + dec_of((-v) as nat)
    } else {
        dec_of(v as nat)
    }
}

fn i64_to_dec(v: i64) -> (r: String)
    ensures
        r@ == int_dec(v as int),
{
    if v >= 0 {
        u64_to_dec(v as u64)
    } else {
        let mag: u64 = if v == i64::MIN {
            9223372036854775808u64
        } else {
            (-v) as u64
        };
        let r = String::from_str("-").concat(u64_to_dec(mag).as_str());
        proof {
            reveal_strlit("-");
            assert(r@ =~= int_dec(v as int));
        }
        r
    }
}

/// What one fetched quote looks like to the library: the exchange, and the
/// day's prices already rounded to whole numbers.
pub struct QuoteSnapshot {
    pub exchange_name: String,
    pub high: i64,
    pub low: i64,
    pub open_price: i64,
    pub close_price: i64,
}

pub struct QuoteView {
    pub exchange_name: Seq<char>,
    pub high: i64,
    pub low: i64,
    pub open_price: i64,
    pub close_price: i64,
}

impl View for QuoteSnapshot {
    type V = QuoteView;

    open spec fn view(&self) -> QuoteView {
        QuoteView {
            exchange_name: self.exchange_name@,
            high: self.high,
            low: self.low,
            open_price: self.open_price,
            close_price: self.close_price,
        }
    }
}

pub open spec fn quote_result_view(r: Result<QuoteSnapshot, String>) -> Result<QuoteView, Seq<char>> {
    match r {
        Ok(q) => Ok(q@),
        Err(e) => Err(e@),
    }
}

/// The pair of prices in one field, separated by a slash.
pub open spec fn price_pair(a: i64, b: i64) -> Seq<char> {
    int_dec(a as int) + " / "@ + int_dec(b as int)
}

fn price_pair_string(a: i64, b: i64) -> (r: String)
    ensures
        r@ == price_pair(a, b),
{
    i64_to_dec(a).concat(" / ").concat(i64_to_dec(b).as_str())
}

/// The embed after one stock attribute is reported into it: the fetched
/// day's quotes, or the fetch error's description.
pub open spec fn apply_stock_field(
    e: EmbedView,
    t: StockPropertyTypes,
    q: Result<QuoteView, Seq<char>>,
) -> EmbedView {
    match t {
        StockPropertyTypes::History => match q {
            Ok(quote) => e.with_description(quote.exchange_name + " (1d)"@).with_field(
                "High / Low"@,
                price_pair(quote.high, quote.low),
                false,
            ).with_field("Open / Close"@, price_pair(quote.open_price, quote.close_price), false),
            Err(msg) => e.with_description(msg),
        },
    }
}

/// The embed after a list of stock attributes is reported into it, in order.
pub open spec fn apply_stock_fields(
    e: EmbedView,
    ts: Seq<StockPropertyTypes>,
    q: Result<QuoteView, Seq<char>>,
) -> EmbedView
    decreases ts.len(),
{
    if ts.len() == 0 {
        e
    } else {
        apply_stock_fields(apply_stock_field(e, ts[0], q), ts.drop_first(), q)
    }
}

fn create_field_from_embed_types(
    embed_types: &Vec<StockPropertyTypes>,
    quote: &Result<QuoteSnapshot, String>,
    embed: &mut EmbedData,
)
    ensures
        final(embed)@ == apply_stock_fields(old(embed)@, embed_types@, quote_result_view(*quote)),
{
    let ghost ts = embed_types@;
    let ghost q = quote_result_view(*quote);
    let mut i: usize = 0;
    proof {
        assert(ts.skip(0) =~= ts);
    }
    while i < embed_types.len()
        invariant
            0 <= i <= embed_types.len(),
            ts == embed_types@,
            q == quote_result_view(*quote),
            apply_stock_fields(old(embed)@, ts, q) == apply_stock_fields(
                embed@,
                ts.skip(i as int),
                q,
            ),
        decreases embed_types.len() - i,
    {
        let t = embed_types[i];
        proof {
            assert(ts.skip(i as int)[0] == ts[i as int]);
            assert(ts.skip(i as int).drop_first() =~= ts.skip(i + 1 as int));
        }
        let ghost prev = embed@;
        match t {
            StockPropertyTypes::History => match quote {
                Ok(q_data) => {
                    embed.description(q_data.exchange_name.clone().concat(" (1d)"));
                    embed.field(
                        String::from_str("High / Low"),
                        price_pair_string(q_data.high, q_data.low),
                        false,
                    );
                    embed.field(
                        String::from_str("Open / Close"),
                        price_pair_string(q_data.open_price, q_data.close_price),
                        false,
                    );
                },
                Err(msg) => {
                    embed.description(msg.clone());
                },
            },
        }
        proof {
            assert(embed@ == apply_stock_field(prev, ts[i as int], q));
        }
        i += 1;
    }
    proof {
        assert(ts.skip(ts.len() as int) =~= Seq::<StockPropertyTypes>::empty());
    }
}

/// One stock's table row: the symbol, repeated once per attribute.
pub open spec fn stock_row(s: Seq<char>, ts: Seq<StockPropertyTypes>) -> Seq<Seq<char>> {
    seq![s] + ts.map_values(|t: StockPropertyTypes| s)
}

pub open spec fn stock_rows(ss: Seq<Seq<char>>, ts: Seq<StockPropertyTypes>) -> Seq<Seq<Seq<char>>> {
    ss.map_values(|s: Seq<char>| stock_row(s, ts))
}

/// A rendered table, fenced as a code block.
pub open spec fn stock_table_wrap(rows: Seq<Seq<Seq<char>>>) -> Seq<char> {
    "```\n"@ + table_text(rows) + "\n```"@
}

/// Renders the stock list as a fenced text table, one row per symbol.
pub fn create_table_from_embed_types(
    embed_types: &Vec<StockPropertyTypes>,
    stocks: &Vec<String>,
) -> (r: String)
    ensures
        r@ == stock_table_wrap(
            stock_rows(stocks@.map_values(|s: String| s@), embed_types@),
        ),
{
    let ghost ts = embed_types@;
    let ghost ss = stocks@.map_values(|s: String| s@);
    let mut data: Vec<Vec<String>> = Vec::new();
    let mut i: usize = 0;
    while i < stocks.len()
        invariant
            0 <= i <= stocks.len(),
            ts == embed_types@,
            ss == stocks@.map_values(|s: String| s@),
            rows_view(data@) == stock_rows(ss.take(i as int), ts),
        decreases stocks.len() - i,
    {
        let stock = &stocks[i];
        let mut row: Vec<String> = Vec::new();
        row.push(stock.clone());
        let mut j: usize = 0;
        proof {
            assert(row@.map_values(|c: String| c@) =~= seq![stock@] + ts.take(0).map_values(
                |t: StockPropertyTypes| stock@,
            ));
        }
        while j < embed_types.len()
            invariant
                0 <= j <= embed_types.len(),
                ts == embed_types@,
                i < stocks@.len(),
                stock == &stocks@[i as int],
                row@.map_values(|c: String| c@) == seq![stock@] + ts.take(j as int).map_values(
                    |t: StockPropertyTypes| stock@,
                ),
            decreases embed_types.len() - j,
        {
            let ghost prev = row@.map_values(|c: String| c@);
            row.push(stock.clone());
            proof {
                assert(row@.map_values(|c: String| c@) =~= prev.push(stock@));
                assert(seq![stock@] + ts.take(j + 1 as int).map_values(
                    |t: StockPropertyTypes| stock@,
                ) =~= prev.push(stock@));
            }
            j += 1;
        }
        proof {
            assert(ts.take(ts.len() as int) =~= ts);
            assert(row@.map_values(|c: String| c@) == stock_row(ss[i as int], ts));
        }
        let ghost prev_rows = rows_view(data@);
        data.push(row);
        proof {
            assert(rows_view(data@) =~= prev_rows.push(stock_row(ss[i as int], ts)));
            assert(stock_rows(ss.take(i + 1 as int), ts) =~= prev_rows.push(
                stock_row(ss[i as int], ts),
            ));
        }
        i += 1;
    }
    proof {
        assert(ss.take(stocks@.len() as int) =~= ss);
    }
    let text = format_table(&data);
    String::from_str("```\n").concat(text.as_str()).concat("\n```")
}

/// The embed the stock command replies with for one symbol.
pub open spec fn stock_embed_view(
    embed_type: Seq<char>,
    stock: Seq<char>,
    q: Result<QuoteView, Seq<char>>,
) -> EmbedView {
    let base = empty_embed().with_title(stock);
    if embed_type == "info"@ {
        apply_stock_fields(base, seq![StockPropertyTypes::History], q)
    } else {
        match stock_property_of_name(embed_type) {
            Some(t) => apply_stock_fields(base, seq![t], q),
            None => base,
        }
    }
}

/// Builds the reply embed for one symbol from the quote its fetch returned,
/// whatever came back.
pub fn create_embed_single_stock(
    embed_type: &str,
    stock: &String,
    quote: &Result<QuoteSnapshot, String>,
) -> (r: EmbedData)
    ensures
        r@ == stock_embed_view(embed_type@, stock@, quote_result_view(*quote)),
{
    let mut embed = EmbedData::new();
    embed.title(stock.clone());
    if str_eq(embed_type, "info") {
        let mut embed_types: Vec<StockPropertyTypes> = Vec::new();
        embed_types.push(StockPropertyTypes::History);
        proof {
            assert(embed_types@ =~= seq![StockPropertyTypes::History]);
        }
        create_field_from_embed_types(&embed_types, quote, &mut embed);
    } else {
        match StockPropertyTypes::from_name(embed_type) {
            Ok(t) => {
                let mut embed_types: Vec<StockPropertyTypes> = Vec::new();
                embed_types.push(t);
                proof {
                    assert(embed_types@ =~= seq![t]);
                }
                create_field_from_embed_types(&embed_types, quote, &mut embed);
            },
            Err(_) => {},
        }
    }
    embed
}

/// The table content the stock command replies with for several symbols.
pub open spec fn stocks_content_view(embed_type: Seq<char>, ss: Seq<Seq<char>>) -> Seq<char> {
    if embed_type == "info"@ {
        stock_table_wrap(stock_rows(ss, seq![StockPropertyTypes::History]))
    } else {
        match stock_property_of_name(embed_type) {
            Some(t) => stock_table_wrap(stock_rows(ss, seq![t])),
            None => Seq::empty(),
        }
    }
}

/// Renders several symbols as one table, one row per symbol.
pub fn create_content_multiple_stocks(embed_type: &str, stocks: &Vec<String>) -> (r: String)
    ensures
        r@ == stocks_content_view(embed_type@, stocks@.map_values(|s: String| s@)),
{
    if str_eq(embed_type, "info") {
        let mut embed_types: Vec<StockPropertyTypes> = Vec::new();
        embed_types.push(StockPropertyTypes::History);
        proof {
            assert(embed_types@ =~= seq![StockPropertyTypes::History]);
        }
        create_table_from_embed_types(&embed_types, stocks)
    } else {
        match StockPropertyTypes::from_name(embed_type) {
            Ok(t) => {
                let mut embed_types: Vec<StockPropertyTypes> = Vec::new();
                embed_types.push(t);
                proof {
                    assert(embed_types@ =~= seq![t]);
                }
                create_table_from_embed_types(&embed_types, stocks)
            },
            Err(_) => String::new(),
        }
    }
}

/// The embed shown when no symbol was given.
pub open spec fn no_stock_embed() -> EmbedView {
    empty_embed().with_title("Error"@).with_description("No stock found!"@).with_color(COLOR_RED)
}

/// The reply to the stock command: an error embed without symbols, a single
/// quote embed for one symbol, and a table for several. The quote passed in
/// is the one fetched for the single symbol; it is read only then.
pub fn create_response_stocks(
    embed_type: &str,
    stocks: &Vec<String>,
    quote: &Result<QuoteSnapshot, String>,
) -> (r: (String, Vec<EmbedData>))
    ensures
        ({
            let ss = stocks@.map_values(|s: String| s@);
            if ss.len() == 0 {
                r.0@.len() == 0 && r.1@.map_values(|e: EmbedData| e@) == seq![no_stock_embed()]
            } else if ss.len() == 1 {
                r.0@.len() == 0 && r.1@.map_values(|e: EmbedData| e@) == seq![
                    stock_embed_view(embed_type@, ss[0], quote_result_view(*quote)),
                ]
            } else {
                r.1@.len() == 0 && r.0@ == stocks_content_view(embed_type@, ss)
            }
        }),
{
    let mut embeds: Vec<EmbedData> = Vec::new();
    let mut content = String::new();
    if stocks.len() == 0 {
        let mut embed = EmbedData::new();
        embed.title(String::from_str("Error"));
        embed.description(String::from_str("No stock found!"));
        embed.color(COLOR_RED);
        embeds.push(embed);
        proof {
            assert(embeds@.map_values(|e: EmbedData| e@) =~= seq![no_stock_embed()]);
        }
    } else if stocks.len() == 1 {
        let embed = create_embed_single_stock(embed_type, &stocks[0], quote);
        embeds.push(embed);
        proof {
            let ss = stocks@.map_values(|s: String| s@);
            assert(embeds@.map_values(|e: EmbedData| e@) =~= seq![
                stock_embed_view(embed_type@, ss[0], quote_result_view(*quote)),
            ]);
        }
    } else {
        content = create_content_multiple_stocks(embed_type, stocks);
    }
    (content, embeds)
}

} // verus!
