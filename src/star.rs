//! The bundled star catalog: parsing its CSV text into a checked table and
//! finding a star's row by name.
use vstd::prelude::*;
use crate::coords::AstroError;
use crate::text::{lower_of, same_text, same_text_ignoring_case};

verus! {

/// The bundled catalog: a header row, then one row per star with its
/// geocentric Cartesian position (parsecs), distance, right ascension (hours)
/// and declination (degrees).
pub const STAR_CATALOG_CSV: &'static str = "proper,x,y,z,dist,ra,dec
Polaris,1.343103,1.047632,132.615061,132.626,2.530303,89.264108
Sirius,-0.494338,2.476811,-0.758509,2.6371,6.752477,-16.716117
Vega,0.960578,-5.908093,4.809799,7.6787,18.615649,38.783689
Betelgeuse,3.189301,151.364200,19.682122,152.6718,5.919529,7.407064
Arcturus,-8.823484,-5.932553,3.698952,11.2575,14.261019,19.182409
Rigel,51.601127,256.709711,-37.740018,264.5503,5.242297,-8.201639
Capella,1.689104,8.831417,9.310317,12.9433,5.278155,45.998003
Altair,2.355576,-4.487504,0.790785,5.1295,19.846389,8.868322
Deneb,197.250658,-232.113419,307.600870,432.9004,20.690532,45.280339
";

#[verifier::external_type_specification]
#[verifier::external_body]
pub struct ExCsvError(csv::Error);

/// The rows, each a sequence of fields, that the csv crate reads from a text
/// with no header handling and equal-length rows required; `None` where it
/// reports an error.
pub uninterp spec fn csv_rows_of(text: Seq<char>) -> Option<Seq<Seq<Seq<char>>>>;

/// Relies on csv's `ReaderBuilder::from_reader` and `Reader::records`, with
/// headers off so that the header is the first row: the rows, or an error.
#[verifier::external_body]
fn read_csv_rows(text: &str) -> (r: Result<Vec<Vec<String>>, csv::Error>)
    ensures
        match r {
            Ok(rows) => csv_rows_of(text@) == Some(rows.deep_view()),
            Err(_) => csv_rows_of(text@) is None,
        },
{
    let mut reader = csv::ReaderBuilder::new().has_headers(false).from_reader(text.as_bytes());
    reader.records().map(|rec| rec.map(|fields| fields.iter().map(|f| f.to_string()).collect())).collect()
}

/// `i` is the first position of `s` that holds `t`.
pub open spec fn is_first_index(s: Seq<Seq<char>>, t: Seq<char>, i: int) -> bool {
    &&& 0 <= i < s.len()
    &&& s[i] == t
    &&& forall|j: int| 0 <= j < i ==> s[j] != t
}

/// Some position of `s` holds `t`.
pub open spec fn contains_text(s: Seq<Seq<char>>, t: Seq<char>) -> bool {
    exists|i: int| 0 <= i < s.len() && s[i] == t
}

/// A table is usable as a catalog when it has a header row that names a
/// `proper` column and every row has as many fields as the header.
pub open spec fn is_catalog_table(t: Seq<Seq<Seq<char>>>) -> bool {
    &&& t.len() >= 1
    &&& contains_text(t[0], "proper"@)
    &&& forall|r: int| 0 <= r < t.len() ==> #[trigger] t[r].len() == t[0].len()
}

/// A parsed catalog: the header row, then the star rows, all of equal width.
pub struct StarCatalog {
    records: Vec<Vec<String>>,
    proper_column: usize,
}

impl StarCatalog {
    /// The whole table, header row first.
    pub closed spec fn table(&self) -> Seq<Seq<Seq<char>>> {
        self.records.deep_view()
    }

    /// The position of the `proper` (star name) column.
    pub closed spec fn name_column(&self) -> int {
        self.proper_column as int
    }

    /// The header row.
    pub open spec fn header(&self) -> Seq<Seq<char>> {
        self.table()[0]
    }

    /// The star rows, without the header.
    pub open spec fn stars(&self) -> Seq<Seq<Seq<char>>> {
        self.table().drop_first()
    }

    /// The name in star row `i`.
    pub open spec fn star_name(&self, i: int) -> Seq<char> {
        self.stars()[i][self.name_column()]
    }

    /// The table is a catalog and the name column is the first `proper` one.
    pub open spec fn wf(&self) -> bool {
        &&& is_catalog_table(self.table())
        &&& is_first_index(self.header(), "proper"@, self.name_column())
    }

    /// Reads a catalog from CSV text. It fails when the text is not CSV, has
    /// no header row, names no `proper` column, or has a row whose width
    /// differs from the header's; no row is ever dropped.
    pub fn from_csv(text: &str) -> (r: Result<StarCatalog, AstroError>)
        ensures
            match csv_rows_of(text@) {
                Some(t) => if is_catalog_table(t) {
                    r is Ok && r->Ok_0.wf() && r->Ok_0.table() == t
                } else {
                    r == Err::<StarCatalog, AstroError>(AstroError::CatalogParse)
                },
                None => r == Err::<StarCatalog, AstroError>(AstroError::CatalogParse),
            },
    {
        let records = match read_csv_rows(text) {
            Ok(rows) => rows,
            Err(_) => {
                return Err(AstroError::CatalogParse);
            },
        };
        let ghost t = records.deep_view();
        if records.len() == 0 {
            return Err(AstroError::CatalogParse);
        }
        let width = records[0].len();
        let mut r: usize = 0;
        while r < records.len()
            invariant
                t == records.deep_view(),
                csv_rows_of(text@) == Some(t),
                t.len() >= 1,
                width == t[0].len(),
                r <= records.len(),
                forall|k: int| 0 <= k < r ==> #[trigger] t[k].len() == width,
            decreases records.len() - r,
        {
            assert(t[r as int] == records@[r as int].deep_view());
            if records[r].len() != width {
                return Err(AstroError::CatalogParse);
            }
            r = r + 1;
        }
        let proper_column = match first_index_of(&records[0], "proper") {
            Some(c) => c,
            None => {
                return Err(AstroError::CatalogParse);
            },
        };
        Ok(StarCatalog { records, proper_column })
    }

    /// Reads the bundled catalog.
    pub fn bundled() -> (r: Result<StarCatalog, AstroError>)
        ensures
            match csv_rows_of(STAR_CATALOG_CSV@) {
                Some(t) => if is_catalog_table(t) {
                    r is Ok && r->Ok_0.wf() && r->Ok_0.table() == t
                } else {
                    r == Err::<StarCatalog, AstroError>(AstroError::CatalogParse)
                },
                None => r == Err::<StarCatalog, AstroError>(AstroError::CatalogParse),
            },
    {
        StarCatalog::from_csv(STAR_CATALOG_CSV)
    }

    /// The number of star rows.
    pub fn len(&self) -> (n: usize)
        requires
            self.wf(),
        ensures
            n == self.stars().len(),
    {
        self.records.len() - 1
    }

    /// The fields of star row `i`.
    pub fn star_row(&self, i: usize) -> (row: &Vec<String>)
        requires
            self.wf(),
            i < self.stars().len(),
        ensures
            row.deep_view() == self.stars()[i as int],
    {
        let n = self.records.len();
        assert(self.table().len() == n);
        &self.records[i + 1]
    }

    /// The first star row whose name equals `name` ignoring case; `NotFound`
    /// exactly when no row's name does.
    pub fn find_star(&self, name: &str) -> (r: Result<usize, AstroError>)
        requires
            self.wf(),
        ensures
            match r {
                Ok(i) => {
                    &&& i < self.stars().len()
                    &&& lower_of(self.star_name(i as int)) == lower_of(name@)
                    &&& forall|j: int|
                        0 <= j < i ==> lower_of(#[trigger] self.star_name(j)) != lower_of(name@)
                },
                Err(e) => {
                    &&& e == AstroError::NotFound
                    &&& forall|j: int|
                        0 <= j < self.stars().len() ==> lower_of(#[trigger] self.star_name(j))
                            != lower_of(name@)
                },
            },
    {
        let ghost t = self.table();
        let n = self.records.len();
        let mut i: usize = 1;
        while i < n
            invariant
                self.wf(),
                t == self.table(),
                n == t.len(),
                1 <= i <= n,
                forall|j: int|
                    0 <= j < i - 1 ==> lower_of(#[trigger] self.star_name(j)) != lower_of(name@),
            decreases n - i,
        {
            assert(t[i as int].len() == t[0].len());
            if same_text_ignoring_case(self.records[i][self.proper_column].as_str(), name) {
                return Ok(i - 1);
            }
            i = i + 1;
        }
        Err(AstroError::NotFound)
    }

    /// The fields of the first star row named `name` ignoring case.
    pub fn get_data(&self, name: &str) -> (r: Result<&Vec<String>, AstroError>)
        requires
            self.wf(),
        ensures
            match r {
                Ok(row) => exists|i: int|
                    {
                        &&& 0 <= i < self.stars().len()
                        &&& row.deep_view() == self.stars()[i]
                        &&& lower_of(self.star_name(i)) == lower_of(name@)
                        &&& forall|j: int|
                            0 <= j < i ==> lower_of(#[trigger] self.star_name(j)) != lower_of(
                                name@,
                            )
                    },
                Err(e) => {
                    &&& e == AstroError::NotFound
                    &&& forall|j: int|
                        0 <= j < self.stars().len() ==> lower_of(#[trigger] self.star_name(j))
                            != lower_of(name@)
                },
            },
    {
        match self.find_star(name) {
            Ok(i) => Ok(self.star_row(i)),
            Err(e) => Err(e),
        }
    }

    /// The position of the first header field equal to `column`.
    pub fn column_index(&self, column: &str) -> (r: Option<usize>)
        requires
            self.wf(),
        ensures
            match r {
                Some(c) => is_first_index(self.header(), column@, c as int),
                None => !contains_text(self.header(), column@),
            },
    {
        first_index_of(&self.records[0], column)
    }
}

/// The first position of `fields` that holds `t`.
pub fn first_index_of(fields: &Vec<String>, t: &str) -> (r: Option<usize>)
    ensures
        match r {
            Some(c) => is_first_index(fields.deep_view(), t@, c as int),
            None => !contains_text(fields.deep_view(), t@),
        },
{
    let ghost s = fields.deep_view();
    let mut i: usize = 0;
    while i < fields.len()
        invariant
            s == fields.deep_view(),
            i <= fields.len(),
            forall|j: int| 0 <= j < i ==> s[j] != t@,
        decreases fields.len() - i,
    {
        if same_text(fields[i].as_str(), t) {
            return Some(i);
        }
        i = i + 1;
    }
    None
}

} // verus!
