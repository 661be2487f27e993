//! The extracted record, its mathematical view, the append-only store that
//! accumulates records across pages, and the tabular rows handed to the
//! exporter.

use vstd::prelude::*;
use vstd::string::*;

verus! {

/// The view of a record: its four fields as character sequences.
pub struct RecordView {
    pub profile_url: Seq<char>,
    pub full_name: Seq<char>,
    pub region: Seq<char>,
    pub birth_date: Seq<char>,
}

/// One extracted subject. A record is created only from a qualifying data row
/// and is immutable once created.
#[derive(Debug, PartialEq, Eq)]
pub struct Record {
    /// Link to the subject's profile; treated as a natural identifier.
    pub profile_url: String,
    /// The second segment of the pipe-delimited anchor label, trimmed.
    pub full_name: String,
    /// Plain cell text.
    pub region: String,
    /// Day, month and year cell texts joined by single spaces.
    pub birth_date: String,
}

impl View for Record {
    type V = RecordView;

    open spec fn view(&self) -> RecordView {
        RecordView {
            profile_url: self.profile_url@,
            full_name: self.full_name@,
            region: self.region@,
            birth_date: self.birth_date@,
        }
    }
}

impl DeepView for Record {
    type V = RecordView;

    open spec fn deep_view(&self) -> RecordView {
        self@
    }
}

impl Record {
    /// A field-for-field copy.
    pub fn duplicate(&self) -> (r: Record)
        ensures
            r@ == self@,
    {
        Record {
            profile_url: self.profile_url.clone(),
            full_name: self.full_name.clone(),
            region: self.region.clone(),
            birth_date: self.birth_date.clone(),
        }
    }
}

/// An ordered, growable, append-only container of records. It preserves
/// first-seen order across all pages and enforces no uniqueness.
pub struct RecordStore {
    items: Vec<Record>,
}

impl View for RecordStore {
    type V = Seq<RecordView>;

    closed spec fn view(&self) -> Seq<RecordView> {
        self.items.deep_view()
    }
}

impl RecordStore {
    /// An empty store.
    pub fn new() -> (r: Self)
        ensures
            r@ == Seq::<RecordView>::empty(),
    {
        let r = RecordStore { items: Vec::new() };
        proof {
            assert(r@ =~= Seq::<RecordView>::empty());
        }
        r
    }

    /// Appends one record at the end, keeping all earlier ones in place.
    pub fn append(&mut self, rec: Record)
        ensures
            final(self)@ == old(self)@.push(rec@),
    {
        self.items.push(rec);
        proof {
            assert(self@ =~= old(self)@.push(rec@));
        }
    }

    /// Appends a whole page's records at the end, in their given order.
    pub fn append_all(&mut self, recs: &Vec<Record>)
        ensures
            final(self)@ == old(self)@ + recs.deep_view(),
    {
        let n = recs.len();
        let mut i: usize = 0;
        while i < n
            invariant
                i <= n,
                n == recs@.len(),
                recs.deep_view().len() == n,
                self@ == old(self)@ + recs.deep_view().take(i as int),
            decreases n - i,
        {
            proof {
                assert(recs.deep_view()[i as int] == recs@[i as int].deep_view());
            }
            let rec = recs[i].duplicate();
            self.append(rec);
            proof {
                assert(self@ =~= old(self)@ + recs.deep_view().take(i + 1 as int));
            }
            i = i + 1;
        }
        proof {
            assert(recs.deep_view().take(n as int) =~= recs.deep_view());
        }
    }

    /// How many records have been accumulated.
    pub fn len(&self) -> (n: usize)
        ensures
            n == self@.len(),
    {
        self.items.len()
    }

    /// The accumulated records, in first-seen order.
    pub fn records(&self) -> (r: &Vec<Record>)
        ensures
            r.deep_view() == self@,
    {
        &self.items
    }

    /// Hands the accumulated records out for export.
    pub fn into_items(self) -> (r: Vec<Record>)
        ensures
            r.deep_view() == self@,
    {
        self.items
    }
}

/// The header row of the exported table; the labels are preserved verbatim
/// from the source domain.
pub open spec fn header_row() -> Seq<Seq<char>> {
    seq!["ФИО"@, "Дата рождения"@, "Регион"@, "Ссылка на профиль"@]
}

/// The exported cells of one record: name, birth date, region, profile link.
pub open spec fn record_row(r: RecordView) -> Seq<Seq<char>> {
    seq![r.full_name, r.birth_date, r.region, r.profile_url]
}

/// The full tabular output: the header row, then one row per record in
/// discovery order.
pub fn export_rows(records: &Vec<Record>) -> (rows: Vec<Vec<String>>)
    ensures
        rows.deep_view().len() == records.len() + 1,
        rows.deep_view()[0] == header_row(),
        forall|i: int|
            0 <= i < records.len() ==> rows.deep_view()[i + 1] == record_row(
                records.deep_view()[i],
            ),
{
    let mut rows: Vec<Vec<String>> = Vec::new();
    let header = vec![
        String::from_str("ФИО"),
        String::from_str("Дата рождения"),
        String::from_str("Регион"),
        String::from_str("Ссылка на профиль"),
    ];
    proof {
        assert(header.deep_view() =~~= header_row());
    }
    rows.push(header);
    let n = records.len();
    let mut i: usize = 0;
    while i < n
        invariant
            i <= n,
            n == records.len(),
            rows.deep_view().len() == i + 1,
            rows.deep_view()[0] == header_row(),
            forall|j: int|
                0 <= j < i ==> rows.deep_view()[j + 1] == record_row(records.deep_view()[j]),
        decreases n - i,
    {
        let rec = &records[i];
        let row = vec![
            rec.full_name.clone(),
            rec.birth_date.clone(),
            rec.region.clone(),
            rec.profile_url.clone(),
        ];
        proof {
            assert(row.deep_view() =~~= record_row(records.deep_view()[i as int]));
        }
        rows.push(row);
        i = i + 1;
    }
    rows
}

} // verus!
