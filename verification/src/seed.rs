//! The seeding task's plans.
//!
//! Seeding reads a fixed list of tab-separated files, each with its own
//! character encoding and record terminator, and inserts the rows in
//! bounded batches; a small bakery data set is added by hand. Which files
//! are read and how, how rows are split into batches, and what the bakery
//! set holds is decided here; the file reading and the inserts stay with
//! the caller.

use vstd::prelude::*;

verus! {

/// Rows inserted per batch.
pub const SEED_BATCH_SIZE: usize = 100;

/// Character encoding of a seed file.
#[derive(Debug, Clone, Copy, PartialEq, Eq, Structural)]
pub enum SeedEncoding {
    /// Single-byte Windows-1252 text.
    Windows1252,
    /// Little-endian UTF-16 text.
    Utf16Le,
}

/// Record terminator of a seed file.
#[derive(Debug, Clone, Copy, PartialEq, Eq, Structural)]
pub enum CsvTerminator {
    /// Carriage return and line feed.
    Crlf,
    /// A single byte.
    Byte(u8),
}

/// One seed file and how to read it.
#[derive(Debug, Clone)]
pub struct SeedFile {
    /// File name under the seed data directory.
    pub file: String,
    /// Character encoding of the file.
    pub encoding: SeedEncoding,
    /// Field delimiter.
    pub delimiter: u8,
    /// Record terminator.
    pub terminator: CsvTerminator,
}

/// One schedule entry has the given file name and read settings.
pub open spec fn seed_file_is(
    s: Seq<SeedFile>,
    i: int,
    file: Seq<char>,
    encoding: SeedEncoding,
    delimiter: u8,
    terminator: CsvTerminator,
) -> bool {
    &&& s[i].file@ == file
    &&& s[i].encoding == encoding
    &&& s[i].delimiter == delimiter
    &&& s[i].terminator == terminator
}

/// One schedule entry.
fn seed_file(
    file: &str,
    encoding: SeedEncoding,
    delimiter: u8,
    terminator: CsvTerminator,
) -> (r: SeedFile)
    ensures
        r.file@ == file@,
        r.encoding == encoding,
        r.delimiter == delimiter,
        r.terminator == terminator,
{
    SeedFile { file: file.to_owned(), encoding, delimiter, terminator }
}

/// The seed files, in the order they must be inserted so that every
/// foreign key finds its target.
pub fn seed_schedule() -> (r: Vec<SeedFile>)
    ensures
        r@.len() == 10,
        seed_file_is(r@, 0, "Customer.tsv"@, SeedEncoding::Windows1252, 9, CsvTerminator::Crlf),
        seed_file_is(r@, 1, "Address.tsv"@, SeedEncoding::Windows1252, 9, CsvTerminator::Crlf),
        seed_file_is(
            r@,
            2,
            "CustomerAddress.tsv"@,
            SeedEncoding::Windows1252,
            9,
            CsvTerminator::Crlf,
        ),
        seed_file_is(
            r@,
            3,
            "SalesOrderHeader.tsv"@,
            SeedEncoding::Windows1252,
            9,
            CsvTerminator::Crlf,
        ),
        seed_file_is(
            r@,
            4,
            "ProductCategory.tsv"@,
            SeedEncoding::Windows1252,
            9,
            CsvTerminator::Crlf,
        ),
        seed_file_is(
            r@,
            5,
            "ProductModel.tsv"@,
            SeedEncoding::Utf16Le,
            126,
            CsvTerminator::Byte(36),
        ),
        seed_file_is(r@, 6, "Product.tsv"@, SeedEncoding::Windows1252, 9, CsvTerminator::Crlf),
        seed_file_is(
            r@,
            7,
            "SalesOrderDetail.tsv"@,
            SeedEncoding::Windows1252,
            9,
            CsvTerminator::Crlf,
        ),
        seed_file_is(
            r@,
            8,
            "ProductDescription.tsv"@,
            SeedEncoding::Utf16Le,
            9,
            CsvTerminator::Crlf,
        ),
        seed_file_is(
            r@,
            9,
            "ProductModelProductDescription.tsv"@,
            SeedEncoding::Windows1252,
            9,
            CsvTerminator::Crlf,
        ),
{
    let tab: u8 = 9;
    let mut r: Vec<SeedFile> = Vec::new();
    r.push(seed_file("Customer.tsv", SeedEncoding::Windows1252, tab, CsvTerminator::Crlf));
    r.push(seed_file("Address.tsv", SeedEncoding::Windows1252, tab, CsvTerminator::Crlf));
    r.push(seed_file("CustomerAddress.tsv", SeedEncoding::Windows1252, tab, CsvTerminator::Crlf));
    r.push(seed_file("SalesOrderHeader.tsv", SeedEncoding::Windows1252, tab, CsvTerminator::Crlf));
    r.push(seed_file("ProductCategory.tsv", SeedEncoding::Windows1252, tab, CsvTerminator::Crlf));
    r.push(seed_file("ProductModel.tsv", SeedEncoding::Utf16Le, 126, CsvTerminator::Byte(36)));
    r.push(seed_file("Product.tsv", SeedEncoding::Windows1252, tab, CsvTerminator::Crlf));
    r.push(seed_file("SalesOrderDetail.tsv", SeedEncoding::Windows1252, tab, CsvTerminator::Crlf));
    r.push(seed_file("ProductDescription.tsv", SeedEncoding::Utf16Le, tab, CsvTerminator::Crlf));
    r.push(
        seed_file(
            "ProductModelProductDescription.tsv",
            SeedEncoding::Windows1252,
            tab,
            CsvTerminator::Crlf,
        ),
    );
    r
}

/// Whether the task was asked to rebuild the schema from scratch: only
/// when the refresh argument was given and reads exactly `true`.
pub fn refresh_requested(refresh_arg: Option<String>) -> (r: bool)
    ensures
        r == (refresh_arg matches Some(v) && v@ == "true"@),
{
    match refresh_arg {
        Some(v) => v == "true".to_owned(),
        None => false,
    }
}

/// What is run before seeding.
#[derive(Debug, Clone, Copy, PartialEq, Eq, Structural)]
pub enum MigrationAction {
    /// Drop everything and migrate from scratch.
    Reset,
    /// Apply pending migrations only.
    Migrate,
}

/// Refreshing resets the schema; otherwise pending migrations run.
pub fn migration_action(refresh: bool) -> (r: MigrationAction)
    ensures
        r == (if refresh {
            MigrationAction::Reset
        } else {
            MigrationAction::Migrate
        }),
{
    if refresh {
        MigrationAction::Reset
    } else {
        MigrationAction::Migrate
    }
}

/// Split `len` rows into contiguous batches of at most `size`: every
/// batch but the last is full, the batches cover `0..len` in order, and
/// an empty input needs no batch.
pub fn batch_ranges(len: usize, size: usize) -> (r: Vec<(usize, usize)>)
    requires
        size > 0,
    ensures
        (r@.len() == 0) <==> (len == 0),
        forall|i: int| 0 <= i < r@.len() ==> (#[trigger] r@[i]).0 < r@[i].1 <= len,
        forall|i: int| 0 <= i < r@.len() ==> (#[trigger] r@[i]).1 - r@[i].0 <= size,
        forall|i: int| 0 <= i < r@.len() - 1 ==> (#[trigger] r@[i]).1 - r@[i].0 == size,
        r@.len() > 0 ==> r@[0].0 == 0 && r@[r@.len() - 1].1 == len,
        forall|i: int| 1 <= i < r@.len() ==> (#[trigger] r@[i]).0 == r@[i - 1].1,
{
    let mut r: Vec<(usize, usize)> = Vec::new();
    let mut start: usize = 0;
    while start < len
        invariant
            size > 0,
            start <= len,
            (r@.len() == 0) <==> (start == 0),
            forall|i: int| 0 <= i < r@.len() ==> (#[trigger] r@[i]).0 < r@[i].1 <= start,
            forall|i: int| 0 <= i < r@.len() ==> (#[trigger] r@[i]).1 - r@[i].0 <= size,
            forall|i: int| 0 <= i < r@.len() - 1 ==> (#[trigger] r@[i]).1 - r@[i].0 == size,
            start < len ==> (forall|i: int|
                0 <= i < r@.len() ==> (#[trigger] r@[i]).1 - r@[i].0 == size),
            r@.len() > 0 ==> r@[0].0 == 0 && r@[r@.len() - 1].1 == start,
            forall|i: int| 1 <= i < r@.len() ==> (#[trigger] r@[i]).0 == r@[i - 1].1,
        decreases len - start,
    {
        let end: usize = if len - start >= size {
            start + size
        } else {
            len
        };
        r.push((start, end));
        start = end;
    }
    r
}

/// One bakery of the hand-made data set.
#[derive(Debug, Clone)]
pub struct BakerySeed {
    /// Bakery name.
    pub name: String,
    /// Profit margin, in tenths of a percentage point.
    pub profit_margin_tenths: u32,
}

/// One baker, employed by a bakery.
#[derive(Debug, Clone)]
pub struct BakerSeed {
    /// Baker name.
    pub name: String,
    /// Contact phone number.
    pub contact: String,
    /// Index of the employing bakery.
    pub bakery: usize,
}

/// One cake, sold by a bakery.
#[derive(Debug, Clone)]
pub struct CakeSeed {
    /// Cake name.
    pub name: String,
    /// Price in cents.
    pub price_cents: u32,
    /// Whether the cake is gluten free.
    pub gluten_free: bool,
    /// Index of the selling bakery.
    pub bakery: usize,
}

/// One cake-to-baker assignment.
#[derive(Debug, Clone, Copy, PartialEq, Eq, Structural)]
pub struct CakeBakerSeed {
    /// Index of the cake.
    pub cake: usize,
    /// Index of the baker.
    pub baker: usize,
}

/// The hand-made bakery data set.
#[derive(Debug, Clone)]
pub struct BakerySeedPlan {
    /// The bakeries.
    pub bakeries: Vec<BakerySeed>,
    /// The bakers, referencing bakeries by index.
    pub bakers: Vec<BakerSeed>,
    /// The cakes, referencing bakeries by index.
    pub cakes: Vec<CakeSeed>,
    /// The assignments, referencing cakes and bakers by index.
    pub assignments: Vec<CakeBakerSeed>,
}

/// One cake of the plan has the given name, price, gluten flag and bakery.
pub open spec fn cake_is(
    s: Seq<CakeSeed>,
    i: int,
    name: Seq<char>,
    price_cents: u32,
    gluten_free: bool,
    bakery: usize,
) -> bool {
    &&& s[i].name@ == name
    &&& s[i].price_cents == price_cents
    &&& s[i].gluten_free == gluten_free
    &&& s[i].bakery == bakery
}

/// One cake entry.
fn cake(name: &str, price_cents: u32, gluten_free: bool, bakery: usize) -> (r: CakeSeed)
    ensures
        r.name@ == name@,
        r.price_cents == price_cents,
        r.gluten_free == gluten_free,
        r.bakery == bakery,
{
    CakeSeed { name: name.to_owned(), price_cents, gluten_free, bakery }
}

/// The bakery data set: two bakeries, a baker at each, twelve cakes, and
/// one assignment per cake. Every reference lands in bounds, and each
/// cake is assigned, in order, to the baker of its own bakery.
pub fn bakery_seed_plan() -> (r: BakerySeedPlan)
    ensures
        r.bakeries@.len() == 2,
        r.bakeries@[0].name@ == "SeaSide Bakery"@ && r.bakeries@[0].profit_margin_tenths == 104,
        r.bakeries@[1].name@ == "LakeSide Bakery"@ && r.bakeries@[1].profit_margin_tenths == 58,
        r.bakers@.len() == 2,
        r.bakers@[0].name@ == "Alice"@ && r.bakers@[0].contact@ == "+44 15273388"@
            && r.bakers@[0].bakery == 0,
        r.bakers@[1].name@ == "Bob"@ && r.bakers@[1].contact@ == "+852 12345678"@
            && r.bakers@[1].bakery == 1,
        r.cakes@.len() == 12,
        cake_is(r.cakes@, 0, "Chocolate Cake"@, 1025, false, 0),
        cake_is(r.cakes@, 1, "Double Chocolate"@, 1250, false, 0),
        cake_is(r.cakes@, 2, "Double Chocolate"@, 1250, false, 1),
        cake_is(r.cakes@, 3, "Lemon Cake"@, 880, false, 0),
        cake_is(r.cakes@, 4, "Lemon Cake"@, 880, false, 1),
        cake_is(r.cakes@, 5, "Strawberry Cake"@, 990, false, 0),
        cake_is(r.cakes@, 6, "Strawberry Cake"@, 990, false, 1),
        cake_is(r.cakes@, 7, "Orange Cake"@, 650, true, 1),
        cake_is(r.cakes@, 8, "New York Cheese"@, 1250, false, 0),
        cake_is(r.cakes@, 9, "New York Cheese"@, 1250, false, 1),
        cake_is(r.cakes@, 10, "Blueburry Cheese"@, 1150, true, 0),
        cake_is(r.cakes@, 11, "Blueburry Cheese"@, 1150, true, 1),
        r.assignments@.len() == 12,
        forall|i: int|
            0 <= i < 12 ==> (#[trigger] r.assignments@[i]).cake == i && r.assignments@[i].baker
                == r.cakes@[i].bakery,
        forall|i: int| 0 <= i < r.cakes@.len() ==> (#[trigger] r.cakes@[i]).bakery < 2,
        forall|i: int| 0 <= i < r.bakers@.len() ==> (#[trigger] r.bakers@[i]).bakery < 2,
{
    let mut bakeries: Vec<BakerySeed> = Vec::new();
    bakeries.push(BakerySeed { name: "SeaSide Bakery".to_owned(), profit_margin_tenths: 104 });
    bakeries.push(BakerySeed { name: "LakeSide Bakery".to_owned(), profit_margin_tenths: 58 });

    let mut bakers: Vec<BakerSeed> = Vec::new();
    bakers.push(BakerSeed { name: "Alice".to_owned(), contact: "+44 15273388".to_owned(), bakery: 0 });
    bakers.push(BakerSeed { name: "Bob".to_owned(), contact: "+852 12345678".to_owned(), bakery: 1 });

    let mut cakes: Vec<CakeSeed> = Vec::new();
    cakes.push(cake("Chocolate Cake", 1025, false, 0));
    cakes.push(cake("Double Chocolate", 1250, false, 0));
    cakes.push(cake("Double Chocolate", 1250, false, 1));
    cakes.push(cake("Lemon Cake", 880, false, 0));
    cakes.push(cake("Lemon Cake", 880, false, 1));
    cakes.push(cake("Strawberry Cake", 990, false, 0));
    cakes.push(cake("Strawberry Cake", 990, false, 1));
    cakes.push(cake("Orange Cake", 650, true, 1));
    cakes.push(cake("New York Cheese", 1250, false, 0));
    cakes.push(cake("New York Cheese", 1250, false, 1));
    cakes.push(cake("Blueburry Cheese", 1150, true, 0));
    cakes.push(cake("Blueburry Cheese", 1150, true, 1));

    let mut assignments: Vec<CakeBakerSeed> = Vec::new();
    assignments.push(CakeBakerSeed { cake: 0, baker: 0 });
    assignments.push(CakeBakerSeed { cake: 1, baker: 0 });
    assignments.push(CakeBakerSeed { cake: 2, baker: 1 });
    assignments.push(CakeBakerSeed { cake: 3, baker: 0 });
    assignments.push(CakeBakerSeed { cake: 4, baker: 1 });
    assignments.push(CakeBakerSeed { cake: 5, baker: 0 });
    assignments.push(CakeBakerSeed { cake: 6, baker: 1 });
    assignments.push(CakeBakerSeed { cake: 7, baker: 1 });
    assignments.push(CakeBakerSeed { cake: 8, baker: 0 });
    assignments.push(CakeBakerSeed { cake: 9, baker: 1 });
    assignments.push(CakeBakerSeed { cake: 10, baker: 0 });
    assignments.push(CakeBakerSeed { cake: 11, baker: 1 });

    BakerySeedPlan { bakeries, bakers, cakes, assignments }
}

} // verus!
