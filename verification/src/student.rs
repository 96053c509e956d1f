//! A student's record: a name, the scores in the order they were entered, and
//! the letter grade that follows from their average.

use vstd::prelude::*;
use crate::score::{
    in_range, is_letter, letter_for, letter_grade_for, push_score, push_short, score_text,
    short_text, MAX_SCORE,
};

verus! {

/// A score was turned away because it lies outside 0 to 100 points.
#[derive(Debug, Clone, Copy, PartialEq, Eq, Structural)]
pub struct ValidationError {
    /// The score that was turned away.
    pub score: i64,
}

impl ValidationError {
    /// What went wrong, in words.
    pub fn message(&self) -> (text: String)
        ensures
            text@ == "Grade must be between 0 and 100"@,
    {
        "Grade must be between 0 and 100".to_owned()
    }
}

/// One student's record.
#[derive(Debug)]
pub struct Student {
    name: String,
    grades: Vec<i64>,
    letter_grade: Option<char>,
}

/// What a `Student` holds, as plain mathematical values.
pub struct StudentView {
    pub name: Seq<char>,
    pub grades: Seq<i64>,
    pub letter_grade: Option<char>,
}

impl View for Student {
    type V = StudentView;

    closed spec fn view(&self) -> StudentView {
        StudentView { name: self.name@, grades: self.grades@, letter_grade: self.letter_grade }
    }
}

/// Every score of the history is valid.
pub open spec fn all_in_range(grades: Seq<i64>) -> bool {
    forall|i: int| 0 <= i < grades.len() ==> in_range(#[trigger] grades[i] as int)
}

/// The sum of a history's scores.
pub open spec fn total(grades: Seq<i64>) -> int
    decreases grades.len(),
{
    if grades.len() == 0 {
        0
    } else {
        total(grades.drop_last()) + grades.last()
    }
}

/// The arithmetic mean of a history, rounded down to a whole thousandth of a
/// point; an empty history has none.
pub open spec fn mean(grades: Seq<i64>) -> Option<int> {
    if grades.len() == 0 {
        None
    } else {
        Some(total(grades) / (grades.len() as int))
    }
}

/// The letter that a history earns: that of its mean, or none while the
/// history is empty.
pub open spec fn letter_of(grades: Seq<i64>) -> Option<char> {
    match mean(grades) {
        Some(average) => Some(letter_for(average)),
        None => None,
    }
}

/// The scores separated by a comma and a space: `85.0, 92.0`.
pub open spec fn joined_scores(grades: Seq<i64>) -> Seq<char>
    decreases grades.len(),
{
    if grades.len() == 0 {
        Seq::empty()
    } else if grades.len() == 1 {
        score_text(grades[0] as nat)
    } else {
        joined_scores(grades.drop_last()) + ", "@ + score_text(grades.last() as nat)
    }
}

/// The history in square brackets: `[85.0, 92.0]`, or `[]` when empty.
pub open spec fn history_text(grades: Seq<i64>) -> Seq<char> {
    "["@ + joined_scores(grades) + "]"@
}

/// The average as the report shows it.
pub open spec fn average_text(grades: Seq<i64>) -> Seq<char> {
    match mean(grades) {
        Some(average) => short_text(average as nat),
        None => "No grades yet"@,
    }
}

/// The letter grade as the report shows it.
pub open spec fn letter_text(letter: Option<char>) -> Seq<char> {
    match letter {
        Some(c) => seq![c],
        None => "N/A"@,
    }
}

/// The four lines of a student's report.
pub open spec fn report_text(student: StudentView) -> Seq<char> {
    "Student: "@ + student.name + "\nGrades: "@ + history_text(student.grades) + "\nAverage: "@
        + average_text(student.grades) + "\nLetter Grade: "@ + letter_text(student.letter_grade)
}

/// Adding one score to a history adds it to the total.
pub proof fn lemma_total_push(grades: Seq<i64>, score: i64)
    ensures
        total(grades.push(score)) == total(grades) + score,
{
    assert(grades.push(score).drop_last() =~= grades);
}

/// The total of a valid history lies between zero and 100 points per score.
pub proof fn lemma_total_bounds(grades: Seq<i64>)
    requires
        all_in_range(grades),
    ensures
        0 <= total(grades) <= MAX_SCORE * grades.len(),
    decreases grades.len(),
{
    if grades.len() > 0 {
        lemma_total_bounds(grades.drop_last());
    }
}

/// The mean of a valid history is itself a valid score.
pub proof fn lemma_mean_in_range(grades: Seq<i64>)
    requires
        all_in_range(grades),
        grades.len() > 0,
    ensures
        mean(grades) is Some,
        in_range(mean(grades)->0),
{
    lemma_total_bounds(grades);
    let t = total(grades);
    let n = grades.len() as int;
    assert(0 <= t / n <= MAX_SCORE) by (nonlinear_arith)
        requires
            0 <= t <= MAX_SCORE * n,
            n > 0,
    ;
}

/// A history without scores has no mean, and the mean of a single score is
/// that score itself.
pub proof fn lemma_mean_of_first_grade(grade: i64)
    ensures
        mean(Seq::<i64>::empty()) is None,
        mean(Seq::<i64>::empty().push(grade)) == Some(grade as int),
{
    lemma_total_push(Seq::<i64>::empty(), grade);
}

/// Rounding the mean down never carries it across a whole number of
/// thousandths: the mean reaches `floor` exactly when the total reaches
/// `floor` for every score of the history. So the letter that follows from
/// the rounded mean is the letter of the exact mean.
pub proof fn lemma_mean_reaches(grades: Seq<i64>, floor: int)
    requires
        grades.len() > 0,
    ensures
        mean(grades) is Some,
        mean(grades)->0 >= floor <==> total(grades) >= floor * grades.len(),
{
    let t = total(grades);
    let n = grades.len() as int;
    assert(t / n >= floor <==> t >= floor * n) by (nonlinear_arith)
        requires
            n > 0,
    ;
}

/// The report depends on nothing but what the record holds: two records
/// with the same name, history and letter grade read the same.
pub proof fn lemma_report_depends_on_state_only(first: Student, second: Student)
    requires
        first@ == second@,
    ensures
        report_text(first@) == report_text(second@),
{
}

/// The one-character string for a letter grade.
fn letter_str(letter: char) -> (s: &'static str)
    requires
        is_letter(letter),
    ensures
        s@ == seq![letter],
{
    proof {
        reveal_strlit("A");
        reveal_strlit("B");
        reveal_strlit("C");
        reveal_strlit("D");
        reveal_strlit("F");
    }
    match letter {
        'A' => "A",
        'B' => "B",
        'C' => "C",
        'D' => "D",
        _ => "F",
    }
}

/// Appends the bracketed history to `out`.
fn push_history(out: &mut String, grades: &Vec<i64>)
    requires
        all_in_range(grades@),
    ensures
        final(out)@ == old(out)@ + history_text(grades@),
{
    out.append("[");
    let ghost opened = out@;
    let mut i: usize = 0;
    while i < grades.len()
        invariant
            i <= grades.len(),
            all_in_range(grades@),
            out@ == opened + joined_scores(grades@.subrange(0, i as int)),
        decreases grades.len() - i,
    {
        if i > 0 {
            out.append(", ");
        }
        assert(grades@.subrange(0, i + 1).drop_last() =~= grades@.subrange(0, i as int));
        push_score(out, grades[i] as u64);
        i = i + 1;
    }
    out.append("]");
    assert(grades@.subrange(0, grades.len() as int) =~= grades@);
}

/// The mean of a valid history, rounded down to a whole thousandth of a
/// point.
fn mean_of(grades: &Vec<i64>) -> (average: Option<i64>)
    requires
        all_in_range(grades@),
    ensures
        match average {
            Some(value) => mean(grades@) == Some(value as int),
            None => mean(grades@) is None,
        },
        average matches Some(value) ==> in_range(value as int),
{
    let count = grades.len();
    if count == 0 {
        return None;
    }
    let mut sum: u128 = 0;
    let mut i: usize = 0;
    while i < count
        invariant
            count == grades.len(),
            i <= count,
            all_in_range(grades@),
            sum == total(grades@.subrange(0, i as int)),
            sum <= MAX_SCORE * i,
        decreases count - i,
    {
        let grade = grades[i];
        proof {
            assert(grades@.subrange(0, i + 1) =~= grades@.subrange(0, i as int).push(grade));
            lemma_total_push(grades@.subrange(0, i as int), grade);
        }
        sum = sum + grade as u128;
        i = i + 1;
    }
    proof {
        assert(grades@.subrange(0, count as int) =~= grades@);
        lemma_mean_in_range(grades@);
    }
    Some((sum / count as u128) as i64)
}

impl Student {
    /// The record is sound: every score is valid, and the letter grade is
    /// the one that the current history earns. This holds of every record
    /// at all times.
    #[verifier::type_invariant]
    pub open spec fn wf(&self) -> bool {
        &&& all_in_range(self@.grades)
        &&& self@.letter_grade == letter_of(self@.grades)
    }

    /// A new record under `name`, with no scores and no letter grade.
    pub fn new(name: String) -> (student: Student)
        ensures
            student.wf(),
            student@.name == name@,
            student@.grades == Seq::<i64>::empty(),
            student@.letter_grade == None::<char>,
    {
        Student { name, grades: Vec::new(), letter_grade: None }
    }

    /// The student's name.
    pub fn name(&self) -> (name: &String)
        ensures
            name@ == self@.name,
    {
        &self.name
    }

    /// The scores entered so far, oldest first.
    pub fn grades(&self) -> (grades: &Vec<i64>)
        ensures
            grades@ == self@.grades,
            all_in_range(grades@),
    {
        proof {
            use_type_invariant(self);
        }
        &self.grades
    }

    /// The current letter grade, if any score has been entered.
    pub fn letter_grade(&self) -> (letter: Option<char>)
        ensures
            letter == self@.letter_grade,
            letter == letter_of(self@.grades),
    {
        proof {
            use_type_invariant(self);
        }
        self.letter_grade
    }

    /// Enters `grade` at the end of the history and brings the letter grade
    /// up to date. A score outside 0 to 100 points is turned away, and the
    /// record stays exactly as it was.
    pub fn add_grade(&mut self, grade: i64) -> (outcome: Result<(), ValidationError>)
        ensures
            final(self).wf(),
            in_range(grade as int) ==> {
                &&& outcome is Ok
                &&& final(self)@.name == old(self)@.name
                &&& final(self)@.grades == old(self)@.grades.push(grade)
                &&& final(self)@.letter_grade == letter_of(old(self)@.grades.push(grade))
            },
            !in_range(grade as int) ==> {
                &&& outcome == Err::<(), ValidationError>(ValidationError { score: grade })
                &&& *final(self) == *old(self)
            },
    {
        proof {
            use_type_invariant(&*self);
        }
        if grade < 0 || grade > MAX_SCORE {
            return Err(ValidationError { score: grade });
        }
        let mut record = Student::new(String::new());
        std::mem::swap(self, &mut record);
        let Student { name, mut grades, letter_grade: _ } = record;
        grades.push(grade);
        let letter_grade = Student::calculate_letter_grade(&grades);
        *self = Student { name, grades, letter_grade };
        Ok(())
    }

    /// Works out the letter grade that a valid history earns.
    fn calculate_letter_grade(grades: &Vec<i64>) -> (letter: Option<char>)
        requires
            all_in_range(grades@),
        ensures
            letter == letter_of(grades@),
    {
        match mean_of(grades) {
            Some(average) => Some(letter_grade_for(average)),
            None => None,
        }
    }

    /// The mean of the scores, rounded down to a whole thousandth of a point,
    /// or `None` while there are no scores.
    pub fn calculate_average(&self) -> (average: Option<i64>)
        ensures
            match average {
                Some(value) => mean(self@.grades) == Some(value as int),
                None => mean(self@.grades) is None,
            },
            average is None <==> self@.grades.len() == 0,
            average matches Some(value) ==> in_range(value as int),
    {
        proof {
            use_type_invariant(self);
        }
        mean_of(&self.grades)
    }

    /// The report on this student: the name, the history, the average and
    /// the letter grade, one to a line. A student without scores shows
    /// `No grades yet` for the average and `N/A` for the letter grade.
    pub fn generate_report(&self) -> (report: String)
        ensures
            report@ == report_text(self@),
    {
        proof {
            use_type_invariant(self);
        }
        let mut report = String::from_str("Student: ");
        report.append(self.name.as_str());
        report.append("\nGrades: ");
        push_history(&mut report, &self.grades);
        report.append("\nAverage: ");
        match self.calculate_average() {
            Some(average) => push_short(&mut report, average as u64),
            None => report.append("No grades yet"),
        }
        report.append("\nLetter Grade: ");
        match self.letter_grade {
            Some(letter) => report.append(letter_str(letter)),
            None => report.append("N/A"),
        }
        report
    }
}

} // verus!
