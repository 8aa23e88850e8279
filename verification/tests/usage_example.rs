use tlayuda::builder::{Builder, FieldValue, Instance};
use tlayuda::extract::get_fields;
use tlayuda::model::{FieldSource, ItemStruct, NumericKind, TypeExpr, TypeShape};
use tlayuda::value::Value;

type Generate = Box<dyn Fn(usize) -> Value>;

#[allow(dead_code)]
pub struct Student {
    id: u64,
    first_name: String,
    last_name: String,
    telephone: String,
    date_of_birth: String,
    final_grade: u32,
}

fn declared(name: &str, ty: &str) -> FieldSource {
    FieldSource {
        name: Some(name.to_string()),
        ty: TypeExpr {
            text: ty.to_string(),
            shape: TypeShape::Path { segments: vec![ty.to_string()], instantiated: false },
        },
        attrs: vec![],
    }
}

fn student_record() -> ItemStruct {
    ItemStruct {
        ident: "Student".to_string(),
        fields: vec![
            declared("id", "u64"),
            declared("first_name", "String"),
            declared("last_name", "String"),
            declared("telephone", "String"),
            declared("date_of_birth", "String"),
            declared("final_grade", "u32"),
        ],
    }
}

fn text_at(instance: &Instance<()>, position: usize) -> String {
    match &instance.fields[position].value {
        FieldValue::Made(Value::Text(s)) => s.clone(),
        other => panic!("no text: {:?}", other),
    }
}

fn number_at(instance: &Instance<()>, position: usize) -> i128 {
    match &instance.fields[position].value {
        FieldValue::Made(Value::Number(_, n)) => *n,
        other => panic!("no number: {:?}", other),
    }
}

fn student(instance: &Instance<()>) -> Student {
    Student {
        id: number_at(instance, 0) as u64,
        first_name: text_at(instance, 1),
        last_name: text_at(instance, 2),
        telephone: text_at(instance, 3),
        date_of_birth: text_at(instance, 4),
        final_grade: number_at(instance, 5) as u32,
    }
}

struct StudentsPartitionedByGrade {
    a_students: Vec<Student>,
    b_students: Vec<Student>,
    c_students: Vec<Student>,
    d_students: Vec<Student>,
    f_students: Vec<Student>,
}

fn group_students_by_grade(mut students: Vec<Student>) -> StudentsPartitionedByGrade {
    let result = StudentsPartitionedByGrade {
        a_students: Vec::new(),
        b_students: Vec::new(),
        c_students: Vec::new(),
        d_students: Vec::new(),
        f_students: Vec::new(),
    };

    students.drain(..).fold(result, |mut acc, student| {
        match student.final_grade {
            90..=100 => acc.a_students.push(student),
            80..=89 => acc.b_students.push(student),
            70..=79 => acc.c_students.push(student),
            60..=69 => acc.d_students.push(student),
            0..=50 => acc.f_students.push(student),
            _ => (),
        }

        acc
    })
}

#[test]
fn test_group_students_by_grade() {
    let record = student_record();
    let fields = get_fields(&record);
    let built: Builder<(), Generate> = Builder::new(&fields, vec![]).unwrap();
    let students: Vec<Student> = built
        .set(
            "final_grade",
            Box::new(|index| Value::Number(NumericKind::U32, (index % 101) as i128)),
        )
        .build_vec(200)
        .iter()
        .map(student)
        .collect();

    let result = group_students_by_grade(students);

    assert_eq!(20, result.a_students.len());
    assert_eq!(20, result.b_students.len());
    assert_eq!(20, result.c_students.len());
    assert_eq!(20, result.d_students.len());
    assert_eq!(102, result.f_students.len());

    result
        .a_students
        .iter()
        .for_each(|s| assert!(s.final_grade >= 90 && s.final_grade <= 100));
    result
        .b_students
        .iter()
        .for_each(|s| assert!(s.final_grade >= 80 && s.final_grade < 90));
    result
        .c_students
        .iter()
        .for_each(|s| assert!(s.final_grade >= 70 && s.final_grade < 80));
    result
        .d_students
        .iter()
        .for_each(|s| assert!(s.final_grade >= 60 && s.final_grade < 70));
    result
        .f_students
        .iter()
        .for_each(|s| assert!(s.final_grade <= 50));
}
